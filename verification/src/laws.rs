//! The guarantees of the orchestration, stated and proved once over the
//! classification predicates that the executable functions are verified
//! against.

use vstd::prelude::*;
use crate::envelope::data_field;
use crate::error::AppError;
use crate::headers::is_excluded_name;
use crate::headers::spec_forwarded;
use crate::service::login_classifies;
use crate::service::status_success;
use crate::service::subscribe_classifies;

verus! {

/// When both upstream hops succeed — the login response carries a string
/// `data.auth_data` and the lookup response carries a string
/// `data.subscribe_url` — the login step yields exactly that token, the
/// lookup step yields exactly that URL, and the URL is non-empty whenever
/// the field itself is.
pub proof fn lemma_link_success(
    login_status: u16,
    login_body: String,
    r1: Result<String, AppError>,
    lookup_status: u16,
    lookup_body: String,
    r2: Result<String, AppError>,
    token: Seq<char>,
    url: Seq<char>,
)
    requires
        status_success(login_status),
        data_field(login_body@, "auth_data"@) == Some(Some(token)),
        login_classifies(login_status, login_body, r1),
        status_success(lookup_status),
        data_field(lookup_body@, "subscribe_url"@) == Some(Some(url)),
        subscribe_classifies(lookup_status, lookup_body, r2),
    ensures
        r1 matches Ok(t) && t@ == token,
        r2 matches Ok(link) && link@ == url,
        url.len() > 0 ==> (r2 matches Ok(link) && link@.len() > 0),
{
}

/// A non-2xx login response always fails as a login failure, carrying the
/// exact status and body received.
pub proof fn lemma_login_failure_verbatim(status: u16, body: String, r: Result<String, AppError>)
    requires
        !status_success(status),
        login_classifies(status, body, r),
    ensures
        r == Err::<String, AppError>(AppError::LoginFailed { status, body }),
{
}

/// A well-formed login response without a string `data.auth_data` always
/// fails as the absent-field error, never as a parse failure.
pub proof fn lemma_missing_auth_data(status: u16, body: String, r: Result<String, AppError>)
    requires
        status_success(status),
        data_field(body@, "auth_data"@) == Some(Option::<Seq<char>>::None),
        login_classifies(status, body, r),
    ensures
        r == Err::<String, AppError>(AppError::AuthDataNotFound),
        r != Err::<String, AppError>(AppError::MalformedResponse),
{
}

/// A login response whose body is not well-formed JSON always fails as a
/// parse failure, kept apart from the absent-field error.
pub proof fn lemma_malformed_login_body(status: u16, body: String, r: Result<String, AppError>)
    requires
        status_success(status),
        data_field(body@, "auth_data"@) is None,
        login_classifies(status, body, r),
    ensures
        r == Err::<String, AppError>(AppError::MalformedResponse),
        r != Err::<String, AppError>(AppError::AuthDataNotFound),
{
}

/// Forwarding keeps every caller header whose name is not excluded and
/// drops every one whose name is: each kept pair appears in the forwarded
/// set, and nothing in the forwarded set has an excluded name.
pub proof fn lemma_forwarding(h: Seq<(Seq<char>, Seq<char>)>)
    ensures
        forall|i: int|
            0 <= i < h.len() && !is_excluded_name(h[i].0) ==> #[trigger] spec_forwarded(h).contains(
                h[i],
            ),
        forall|j: int|
            0 <= j < spec_forwarded(h).len() ==> !is_excluded_name(
                #[trigger] spec_forwarded(h)[j].0,
            ),
{
    let pred = |p: (Seq<char>, Seq<char>)| !is_excluded_name(p.0);
    assert forall|i: int|
        0 <= i < h.len() && !is_excluded_name(h[i].0) implies #[trigger] spec_forwarded(
        h,
    ).contains(h[i]) by {
        h.lemma_filter_contains(pred, i);
    }
    assert forall|j: int|
        0 <= j < spec_forwarded(h).len() implies !is_excluded_name(
        #[trigger] spec_forwarded(h)[j].0,
    ) by {
        h.lemma_filter_pred(pred, j);
    }
}

} // verus!

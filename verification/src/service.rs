//! The subscription orchestrator: the fixed two-hop upstream workflow
//! (login, then token-authorized lookup), optionally followed by a relay of
//! the resolved URL's content. The orchestrator is a state machine over
//! plain values: it describes each outbound call as data and classifies
//! each response; performing the network I/O is the caller's concern.

use vstd::prelude::*;
use crate::config::Config;
use crate::envelope::FieldLookup;
use crate::envelope::data_field;
use crate::envelope::envelope_field;
use crate::error::AppError;
use crate::headers::filter_headers;
use crate::headers::header_value_ok;
use crate::headers::headers_view;
use crate::headers::is_valid_header_value;
use crate::headers::spec_forwarded;

verus! {

/// A 2xx upstream status.
pub open spec fn status_success(status: u16) -> bool {
    200 <= status < 300
}

/// `r` is exactly what the login step yields for the response
/// `(status, body)`: on a non-2xx status the failure keeps status and body
/// verbatim; otherwise the body is read as an envelope and `data.auth_data`
/// becomes the session token, with a malformed body and an absent field
/// kept apart.
pub open spec fn login_classifies(status: u16, body: String, r: Result<String, AppError>) -> bool {
    match r {
        Ok(token) => status_success(status) && data_field(body@, "auth_data"@) == Some(
            Some(token@),
        ),
        Err(e) => match e {
            AppError::LoginFailed { status: s, body: b } => !status_success(status) && s == status
                && b == body,
            AppError::MalformedResponse => status_success(status) && data_field(
                body@,
                "auth_data"@,
            ) is None,
            AppError::AuthDataNotFound => status_success(status) && data_field(
                body@,
                "auth_data"@,
            ) == Some(Option::<Seq<char>>::None),
            _ => false,
        },
    }
}

/// `r` is exactly what the lookup step yields for the response
/// `(status, body)`: as with login, but the field is `data.subscribe_url`
/// and the failure kinds are the lookup-specific ones.
pub open spec fn subscribe_classifies(
    status: u16,
    body: String,
    r: Result<String, AppError>,
) -> bool {
    match r {
        Ok(link) => status_success(status) && data_field(body@, "subscribe_url"@) == Some(
            Some(link@),
        ),
        Err(e) => match e {
            AppError::SubscribeFailed { status: s, body: b } => !status_success(status) && s
                == status && b == body,
            AppError::MalformedResponse => status_success(status) && data_field(
                body@,
                "subscribe_url"@,
            ) is None,
            AppError::SubscribeUrlNotFound => status_success(status) && data_field(
                body@,
                "subscribe_url"@,
            ) == Some(Option::<Seq<char>>::None),
            _ => false,
        },
    }
}

/// `r` is exactly what the relay step yields: the body verbatim on a 2xx
/// status, and a failure keeping only the status otherwise.
pub open spec fn relay_classifies(status: u16, body: String, r: Result<String, AppError>) -> bool {
    match r {
        Ok(b) => status_success(status) && b == body,
        Err(e) => match e {
            AppError::RelayFailed { status: s } => !status_success(status) && s == status,
            _ => false,
        },
    }
}

/// One outbound upstream call, described as plain data.
pub enum UpstreamRequest {
    /// POST `url` with a JSON object `{"email": .., "password": ..}` as the
    /// body.
    PostJson { url: String, email: String, password: String },
    /// GET `url` with `Authorization: auth` as the only added header.
    GetAuthorized { url: String, auth: String },
    /// GET `url` with exactly these headers.
    Get { url: String, headers: Vec<(String, String)> },
}

/// The orchestrator: holds the configuration and interprets every upstream
/// response of the two-hop exchange.
#[derive(Clone, Debug)]
pub struct VpnService {
    pub config: Config,
}

impl VpnService {
    pub fn new(config: Config) -> (r: Self)
        ensures
            r.config == config,
    {
        VpnService { config }
    }

    /// The login call: the configured login URL and the stored credentials.
    pub fn login_request(&self) -> (r: UpstreamRequest)
        ensures
            (r matches UpstreamRequest::PostJson { url, email, password } && url@
                == self.config.login_url@ && email@ == self.config.xcvpn_email@ && password@
                == self.config.xcvpn_password@),
    {
        UpstreamRequest::PostJson {
            url: self.config.login_url.clone(),
            email: self.config.xcvpn_email.clone(),
            password: self.config.xcvpn_password.clone(),
        }
    }

    /// Classifies the login response and extracts the session token.
    pub fn login_outcome(&self, status: u16, body: String) -> (r: Result<String, AppError>)
        ensures
            login_classifies(status, body, r),
    {
        if !(200 <= status && status < 300) {
            return Err(AppError::LoginFailed { status, body });
        }
        match envelope_field(body.as_str(), "auth_data") {
            FieldLookup::Malformed => Err(AppError::MalformedResponse),
            FieldLookup::Missing => Err(AppError::AuthDataNotFound),
            FieldLookup::Found(token) => Ok(token),
        }
    }

    /// The lookup call: the configured subscribe URL, authorized with the
    /// token exactly as the login hop returned it. A token that cannot be
    /// carried as a header value is rejected before anything is sent.
    pub fn subscribe_request(&self, token: String) -> (r: Result<UpstreamRequest, AppError>)
        ensures
            header_value_ok(token@) ==> (r matches Ok(req) && req
                matches UpstreamRequest::GetAuthorized { url, auth } && url@
                == self.config.subscribe_url@ && auth@ == token@),
            !header_value_ok(token@) ==> r == Err::<UpstreamRequest, AppError>(
                AppError::InvalidHeaderValue,
            ),
    {
        if !is_valid_header_value(token.as_str()) {
            return Err(AppError::InvalidHeaderValue);
        }
        Ok(UpstreamRequest::GetAuthorized { url: self.config.subscribe_url.clone(), auth: token })
    }

    /// Classifies the lookup response and extracts the subscribe URL.
    pub fn subscribe_outcome(&self, status: u16, body: String) -> (r: Result<String, AppError>)
        ensures
            subscribe_classifies(status, body, r),
    {
        if !(200 <= status && status < 300) {
            return Err(AppError::SubscribeFailed { status, body });
        }
        match envelope_field(body.as_str(), "subscribe_url") {
            FieldLookup::Malformed => Err(AppError::MalformedResponse),
            FieldLookup::Missing => Err(AppError::SubscribeUrlNotFound),
            FieldLookup::Found(link) => Ok(link),
        }
    }

    /// The relay call: the resolved URL, carrying the caller's headers
    /// minus the excluded ones, or no headers when the caller gave none.
    pub fn relay_request(url: String, caller_headers: &Option<Vec<(String, String)>>) -> (r:
        UpstreamRequest)
        ensures
            (r matches UpstreamRequest::Get { url: u, headers: h } && u == url && (match (
            *caller_headers) {
                Some(ch) => headers_view(h@) == spec_forwarded(headers_view(ch@)),
                None => h@.len() == 0,
            })),
    {
        let headers = match caller_headers {
            Some(ch) => filter_headers(ch),
            None => Vec::new(),
        };
        UpstreamRequest::Get { url, headers }
    }

    /// Classifies the relay response: the content verbatim, or a failure
    /// that keeps only the status.
    pub fn relay_outcome(status: u16, body: String) -> (r: Result<String, AppError>)
        ensures
            relay_classifies(status, body, r),
    {
        if 200 <= status && status < 300 {
            Ok(body)
        } else {
            Err(AppError::RelayFailed { status })
        }
    }
}

} // verus!

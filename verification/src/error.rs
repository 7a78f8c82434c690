//! The failure taxonomy: every way an orchestration can fail, the HTTP
//! status each failure maps to at the service boundary, and the
//! human-readable message shown to the caller. The upstream body is kept
//! verbatim inside the auth-failure kinds so that credential problems can be
//! diagnosed; a relay failure carries only the status.

use vstd::prelude::*;
use crate::digits::dec_digits;
use crate::digits::u16_to_string;

verus! {

/// One failure kind per hop of the upstream exchange, plus the
/// configuration, transport and encoding failures around it.
pub enum AppError {
    /// A required configuration value is absent.
    ConfigMissing,
    /// The upstream server could not be reached at all.
    NetworkError,
    /// The login hop answered with a non-2xx status; status and body are
    /// kept exactly as received.
    LoginFailed { status: u16, body: String },
    /// The login response parsed as JSON but held no string `data.auth_data`.
    AuthDataNotFound,
    /// The lookup hop answered with a non-2xx status; status and body are
    /// kept exactly as received.
    SubscribeFailed { status: u16, body: String },
    /// The lookup response parsed as JSON but held no string
    /// `data.subscribe_url`.
    SubscribeUrlNotFound,
    /// The session token cannot be carried as an HTTP header value.
    InvalidHeaderValue,
    /// An upstream body was not well-formed JSON.
    MalformedResponse,
    /// The relay hop answered with a non-2xx status; only the status is
    /// kept.
    RelayFailed { status: u16 },
}

impl AppError {
    /// The HTTP status the service answers with for this failure: 401 for
    /// the two authenticated upstream refusals, 503 when the upstream is
    /// unreachable, 500 for everything else.
    pub open spec fn spec_http_status(&self) -> u16 {
        match self {
            AppError::ConfigMissing => 500,
            AppError::NetworkError => 503,
            AppError::LoginFailed { .. } => 401,
            AppError::AuthDataNotFound => 500,
            AppError::SubscribeFailed { .. } => 401,
            AppError::SubscribeUrlNotFound => 500,
            AppError::InvalidHeaderValue => 500,
            AppError::MalformedResponse => 500,
            AppError::RelayFailed { .. } => 500,
        }
    }

    pub fn http_status(&self) -> (r: u16)
        ensures
            r == self.spec_http_status(),
    {
        match self {
            AppError::ConfigMissing => 500,
            AppError::NetworkError => 503,
            AppError::LoginFailed { .. } => 401,
            AppError::AuthDataNotFound => 500,
            AppError::SubscribeFailed { .. } => 401,
            AppError::SubscribeUrlNotFound => 500,
            AppError::InvalidHeaderValue => 500,
            AppError::MalformedResponse => 500,
            AppError::RelayFailed { .. } => 500,
        }
    }

    /// The caller-visible description. The auth-failure kinds embed the
    /// upstream status and body verbatim; a relay failure embeds only the
    /// status.
    pub open spec fn spec_message(&self) -> Seq<char> {
        match self {
            AppError::ConfigMissing => "Missing configuration."@,
            AppError::NetworkError => "Failed to reach the upstream server."@,
            AppError::LoginFailed { status, body } => "Login failed. Status: "@ + dec_digits(
                *status as nat,
            ) + ". Body: "@ + body@,
            AppError::AuthDataNotFound => "'auth_data' not found in the login response."@,
            AppError::SubscribeFailed { status, body } => "Subscribe failed. Status: "@
                + dec_digits(*status as nat) + ". Body: "@ + body@,
            AppError::SubscribeUrlNotFound => "'subscribe_url' not found in the response."@,
            AppError::InvalidHeaderValue => "Invalid header value."@,
            AppError::MalformedResponse => "Malformed upstream response."@,
            AppError::RelayFailed { status } => "Failed to fetch subscription message. Status: "@
                + dec_digits(*status as nat),
        }
    }

    pub fn message(&self) -> (r: String)
        ensures
            r@ == self.spec_message(),
    {
        match self {
            AppError::ConfigMissing => String::from_str("Missing configuration."),
            AppError::NetworkError => String::from_str("Failed to reach the upstream server."),
            AppError::LoginFailed { status, body } => {
                let mut s = String::from_str("Login failed. Status: ");
                let st = u16_to_string(*status);
                s.append(st.as_str());
                s.append(". Body: ");
                s.append(body.as_str());
                s
            },
            AppError::AuthDataNotFound => String::from_str(
                "'auth_data' not found in the login response.",
            ),
            AppError::SubscribeFailed { status, body } => {
                let mut s = String::from_str("Subscribe failed. Status: ");
                let st = u16_to_string(*status);
                s.append(st.as_str());
                s.append(". Body: ");
                s.append(body.as_str());
                s
            },
            AppError::SubscribeUrlNotFound => String::from_str(
                "'subscribe_url' not found in the response.",
            ),
            AppError::InvalidHeaderValue => String::from_str("Invalid header value."),
            AppError::MalformedResponse => String::from_str("Malformed upstream response."),
            AppError::RelayFailed { status } => {
                let mut s = String::from_str("Failed to fetch subscription message. Status: ");
                let st = u16_to_string(*status);
                s.append(st.as_str());
                s
            },
        }
    }

    /// The pair the service boundary turns into its HTTP answer: the mapped
    /// status and the message body.
    pub fn to_response(&self) -> (r: (u16, String))
        ensures
            r.0 == self.spec_http_status(),
            r.1@ == self.spec_message(),
    {
        (self.http_status(), self.message())
    }
}

} // verus!

//! One orchestration run as a state machine. A run serves either the link
//! endpoint (answer with the resolved subscribe URL) or the relay endpoint
//! (additionally fetch that URL, forwarding the caller's filtered headers,
//! and answer with the content verbatim). The machine hands out each
//! upstream call as data and consumes each response; the first failure at
//! any hop ends the run with that hop's error. Every run begins with a
//! fresh login: nothing is cached across runs.

use vstd::prelude::*;
use crate::envelope::data_field;
use crate::error::AppError;
use crate::headers::header_value_ok;
use crate::headers::headers_view;
use crate::headers::spec_forwarded;
use crate::service::status_success;
use crate::service::UpstreamRequest;
use crate::service::VpnService;

verus! {

/// Which endpoint a run serves.
pub enum FlowGoal {
    /// Answer with the resolved subscribe URL itself.
    Link,
    /// Fetch the resolved URL and answer with its content.
    Relay,
}

/// Where a run stands: which upstream response it is waiting for.
pub enum FlowState {
    AwaitingLogin,
    AwaitingSubscribe,
    AwaitingRelay,
    Finished,
}

/// What the caller must do next: perform an upstream call, or answer the
/// inbound request with a final result.
pub enum FlowAction {
    Call(UpstreamRequest),
    Done(Result<String, AppError>),
}

/// One orchestration run.
pub struct SubscriptionFlow {
    pub service: VpnService,
    pub goal: FlowGoal,
    pub caller_headers: Option<Vec<(String, String)>>,
    pub state: FlowState,
}

impl SubscriptionFlow {
    /// Begins a run. Whatever the goal, the first upstream call is always
    /// the login POST with the configured URL and credentials: a run never
    /// reuses a token from an earlier run.
    pub fn start(service: VpnService, goal: FlowGoal, caller_headers: Option<Vec<(String, String)>>)
        -> (r: (SubscriptionFlow, UpstreamRequest))
        ensures
            r.0.service == service,
            r.0.goal == goal,
            r.0.caller_headers == caller_headers,
            r.0.state is AwaitingLogin,
            (r.1 matches UpstreamRequest::PostJson { url, email, password } && url@
                == service.config.login_url@ && email@ == service.config.xcvpn_email@ && password@
                == service.config.xcvpn_password@),
    {
        let req = service.login_request();
        let flow = SubscriptionFlow { service, goal, caller_headers, state: FlowState::AwaitingLogin };
        (flow, req)
    }

    /// Consumes the response of the call the machine is waiting for and
    /// says what to do next. Each hop is classified independently: a
    /// non-2xx status yields that hop's own failure kind, and the two
    /// envelope hops keep a malformed body apart from an absent field.
    pub fn on_response(&mut self, status: u16, body: String) -> (r: FlowAction)
        requires
            !(old(self).state is Finished),
        ensures
            final(self).service == old(self).service,
            final(self).goal == old(self).goal,
            final(self).caller_headers == old(self).caller_headers,
            (r is Done ==> final(self).state is Finished),
            // Login hop: a non-2xx status ends the run with the status and
            // body kept verbatim.
            old(self).state is AwaitingLogin && !status_success(status) ==> r
                == FlowAction::Done(Err(AppError::LoginFailed { status, body })),
            // Login hop: a 2xx status with a body that is not well-formed
            // JSON.
            old(self).state is AwaitingLogin && status_success(status) && data_field(
                body@,
                "auth_data"@,
            ) is None ==> r == FlowAction::Done(Err(AppError::MalformedResponse)),
            // Login hop: well-formed JSON without a string `data.auth_data`.
            old(self).state is AwaitingLogin && status_success(status) && data_field(
                body@,
                "auth_data"@,
            ) == Some(Option::<Seq<char>>::None) ==> r == FlowAction::Done(
                Err(AppError::AuthDataNotFound),
            ),
            // Login hop: a usable token leads to the authorized lookup,
            // with the token exactly as returned; a token that cannot
            // travel as a header value is rejected before anything is
            // sent.
            old(self).state is AwaitingLogin && status_success(status) ==> (match data_field(
                body@,
                "auth_data"@,
            ) {
                Some(Some(t)) => if header_value_ok(t) {
                    r matches FlowAction::Call(req) && req matches UpstreamRequest::GetAuthorized {
                        url,
                        auth,
                    } && url@ == old(self).service.config.subscribe_url@ && auth@ == t
                        && final(self).state is AwaitingSubscribe
                } else {
                    r == FlowAction::Done(Err(AppError::InvalidHeaderValue))
                },
                _ => true,
            }),
            // Lookup hop: a non-2xx status ends the run with the status and
            // body kept verbatim.
            old(self).state is AwaitingSubscribe && !status_success(status) ==> r
                == FlowAction::Done(Err(AppError::SubscribeFailed { status, body })),
            // Lookup hop: a 2xx status with a body that is not well-formed
            // JSON.
            old(self).state is AwaitingSubscribe && status_success(status) && data_field(
                body@,
                "subscribe_url"@,
            ) is None ==> r == FlowAction::Done(Err(AppError::MalformedResponse)),
            // Lookup hop: well-formed JSON without a string
            // `data.subscribe_url`.
            old(self).state is AwaitingSubscribe && status_success(status) && data_field(
                body@,
                "subscribe_url"@,
            ) == Some(Option::<Seq<char>>::None) ==> r == FlowAction::Done(
                Err(AppError::SubscribeUrlNotFound),
            ),
            // Lookup hop, resolved: under the link goal the run ends with
            // the resolved URL; under the relay goal that URL is fetched
            // next, carrying the caller's headers minus the excluded ones.
            old(self).state is AwaitingSubscribe && status_success(status) ==> (
            match data_field(body@, "subscribe_url"@) {
                Some(Some(u)) => match old(self).goal {
                    FlowGoal::Link => r matches FlowAction::Done(res) && res matches Ok(link)
                        && link@ == u,
                    FlowGoal::Relay => r matches FlowAction::Call(req)
                        && req matches UpstreamRequest::Get { url, headers } && url@ == u && (
                        match old(self).caller_headers {
                            Some(ch) => headers_view(headers@) == spec_forwarded(
                                headers_view(ch@),
                            ),
                            None => headers@.len() == 0,
                        }) && final(self).state is AwaitingRelay,
                },
                _ => true,
            }),
            // Relay hop: the content comes back verbatim on a 2xx status;
            // otherwise only the status is reported.
            old(self).state is AwaitingRelay && status_success(status) ==> r == FlowAction::Done(
                Ok(body),
            ),
            old(self).state is AwaitingRelay && !status_success(status) ==> r == FlowAction::Done(
                Err(AppError::RelayFailed { status }),
            ),
    {
        match self.state {
            FlowState::AwaitingLogin => {
                match self.service.login_outcome(status, body) {
                    Err(e) => {
                        self.state = FlowState::Finished;
                        FlowAction::Done(Err(e))
                    },
                    Ok(token) => {
                        match self.service.subscribe_request(token) {
                            Err(e) => {
                                self.state = FlowState::Finished;
                                FlowAction::Done(Err(e))
                            },
                            Ok(req) => {
                                self.state = FlowState::AwaitingSubscribe;
                                FlowAction::Call(req)
                            },
                        }
                    },
                }
            },
            FlowState::AwaitingSubscribe => {
                match self.service.subscribe_outcome(status, body) {
                    Err(e) => {
                        self.state = FlowState::Finished;
                        FlowAction::Done(Err(e))
                    },
                    Ok(link) => {
                        match self.goal {
                            FlowGoal::Link => {
                                self.state = FlowState::Finished;
                                FlowAction::Done(Ok(link))
                            },
                            FlowGoal::Relay => {
                                let req = VpnService::relay_request(link, &self.caller_headers);
                                self.state = FlowState::AwaitingRelay;
                                FlowAction::Call(req)
                            },
                        }
                    },
                }
            },
            FlowState::AwaitingRelay | FlowState::Finished => {
                let r = VpnService::relay_outcome(status, body);
                self.state = FlowState::Finished;
                FlowAction::Done(r)
            },
        }
    }
}

} // verus!

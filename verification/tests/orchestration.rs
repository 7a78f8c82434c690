use vpn_sub_scraper::config::Config;
use vpn_sub_scraper::error::AppError;
use vpn_sub_scraper::flow::FlowAction;
use vpn_sub_scraper::flow::FlowGoal;
use vpn_sub_scraper::flow::SubscriptionFlow;
use vpn_sub_scraper::service::UpstreamRequest;
use vpn_sub_scraper::service::VpnService;

fn sample_service() -> VpnService {
    VpnService::new(Config {
        xcvpn_email: String::from("user@example.com"),
        xcvpn_password: String::from("pw"),
        server_host: String::from("127.0.0.1"),
        server_port: 3000,
        login_url: String::from("https://upstream.example/api/v1/passport/auth/login"),
        subscribe_url: String::from("https://upstream.example/api/v1/user/getSubscribe"),
    })
}

const LOGIN_OK: &str = "{\"data\":{\"auth_data\":\"tok123\"}}";
const LOOKUP_OK: &str = "{\"data\":{\"subscribe_url\":\"https://cdn.example/sub/abc\"}}";

#[test]
fn login_extracts_token() {
    let svc = sample_service();
    let r = svc.login_outcome(200, String::from(LOGIN_OK));
    assert_eq!(r.unwrap_or_default(), "tok123");
}

#[test]
fn login_failure_keeps_status_and_body() {
    let svc = sample_service();
    let r = svc.login_outcome(401, String::from("{\"error\":\"bad creds\"}"));
    match r {
        Err(AppError::LoginFailed { status, body }) => {
            assert_eq!(status, 401);
            assert_eq!(body, "{\"error\":\"bad creds\"}");
        }
        _ => panic!("expected LoginFailed"),
    }
}

#[test]
fn login_distinguishes_malformed_from_missing() {
    let svc = sample_service();
    assert!(matches!(
        svc.login_outcome(200, String::from("{not json")),
        Err(AppError::MalformedResponse)
    ));
    assert!(matches!(
        svc.login_outcome(200, String::from("{\"data\":{}}")),
        Err(AppError::AuthDataNotFound)
    ));
    assert!(matches!(
        svc.login_outcome(200, String::from("{\"data\":{\"auth_data\":123}}")),
        Err(AppError::AuthDataNotFound)
    ));
    assert!(matches!(
        svc.login_outcome(200, String::from("{}")),
        Err(AppError::AuthDataNotFound)
    ));
    assert!(matches!(
        svc.login_outcome(200, String::from("[1,2]")),
        Err(AppError::AuthDataNotFound)
    ));
}

#[test]
fn lookup_outcomes() {
    let svc = sample_service();
    let r = svc.subscribe_outcome(200, String::from(LOOKUP_OK));
    assert_eq!(r.unwrap_or_default(), "https://cdn.example/sub/abc");
    match svc.subscribe_outcome(500, String::from("oops")) {
        Err(AppError::SubscribeFailed { status, body }) => {
            assert_eq!(status, 500);
            assert_eq!(body, "oops");
        }
        _ => panic!("expected SubscribeFailed"),
    }
    assert!(matches!(
        svc.subscribe_outcome(200, String::from("{\"data\":{}}")),
        Err(AppError::SubscribeUrlNotFound)
    ));
    assert!(matches!(
        svc.subscribe_outcome(200, String::from("not json")),
        Err(AppError::MalformedResponse)
    ));
}

#[test]
fn subscribe_request_carries_token_verbatim() {
    let svc = sample_service();
    match svc.subscribe_request(String::from("tok123")) {
        Ok(UpstreamRequest::GetAuthorized { url, auth }) => {
            assert_eq!(url, "https://upstream.example/api/v1/user/getSubscribe");
            assert_eq!(auth, "tok123");
        }
        _ => panic!("expected an authorized lookup request"),
    }
    assert!(matches!(
        svc.subscribe_request(String::from("bad\ntoken")),
        Err(AppError::InvalidHeaderValue)
    ));
}

#[test]
fn relay_outcomes() {
    let ok = VpnService::relay_outcome(200, String::from("PROXY-CONTENT"));
    assert_eq!(ok.unwrap_or_default(), "PROXY-CONTENT");
    match VpnService::relay_outcome(503, String::from("ignored")) {
        Err(AppError::RelayFailed { status }) => assert_eq!(status, 503),
        _ => panic!("expected RelayFailed"),
    }
}

#[test]
fn link_scenario_resolves_url() {
    let (mut flow, first) = SubscriptionFlow::start(sample_service(), FlowGoal::Link, None);
    match first {
        UpstreamRequest::PostJson { url, email, password } => {
            assert_eq!(url, "https://upstream.example/api/v1/passport/auth/login");
            assert_eq!(email, "user@example.com");
            assert_eq!(password, "pw");
        }
        _ => panic!("a run must begin with the login POST"),
    }
    let second = flow.on_response(200, String::from(LOGIN_OK));
    match second {
        FlowAction::Call(UpstreamRequest::GetAuthorized { url, auth }) => {
            assert_eq!(url, "https://upstream.example/api/v1/user/getSubscribe");
            assert_eq!(auth, "tok123");
        }
        _ => panic!("expected the authorized lookup call"),
    }
    let last = flow.on_response(200, String::from(LOOKUP_OK));
    match last {
        FlowAction::Done(Ok(link)) => assert_eq!(link, "https://cdn.example/sub/abc"),
        _ => panic!("expected the resolved URL"),
    }
}

#[test]
fn link_scenario_login_refused() {
    let (mut flow, _first) = SubscriptionFlow::start(sample_service(), FlowGoal::Link, None);
    let next = flow.on_response(401, String::from("{\"error\":\"bad creds\"}"));
    match next {
        FlowAction::Done(Err(e)) => {
            let (status, message) = e.to_response();
            assert_eq!(status, 401);
            assert!(message.contains("bad creds"));
        }
        _ => panic!("expected the run to end with the login failure"),
    }
}

#[test]
fn relay_scenario_forwards_cookie_and_body() {
    let caller = vec![(String::from("Cookie"), String::from("sid=1"))];
    let (mut flow, _first) =
        SubscriptionFlow::start(sample_service(), FlowGoal::Relay, Some(caller));
    let _second = flow.on_response(200, String::from(LOGIN_OK));
    let third = flow.on_response(200, String::from(LOOKUP_OK));
    match third {
        FlowAction::Call(UpstreamRequest::Get { url, headers }) => {
            assert_eq!(url, "https://cdn.example/sub/abc");
            assert_eq!(headers, vec![(String::from("Cookie"), String::from("sid=1"))]);
        }
        _ => panic!("expected the relay call"),
    }
    let last = flow.on_response(200, String::from("PROXY-CONTENT"));
    match last {
        FlowAction::Done(Ok(body)) => assert_eq!(body, "PROXY-CONTENT"),
        _ => panic!("expected the content verbatim"),
    }
}

#[test]
fn relay_failure_reports_status_only() {
    let (mut flow, _first) = SubscriptionFlow::start(sample_service(), FlowGoal::Relay, None);
    let _second = flow.on_response(200, String::from(LOGIN_OK));
    let _third = flow.on_response(200, String::from(LOOKUP_OK));
    let last = flow.on_response(404, String::from("a body that must not leak"));
    match last {
        FlowAction::Done(Err(e)) => {
            assert_eq!(e.http_status(), 500);
            let message = e.message();
            assert_eq!(message, "Failed to fetch subscription message. Status: 404");
            assert!(!message.contains("leak"));
        }
        _ => panic!("expected RelayFailed"),
    }
}

#[test]
fn invalid_token_is_rejected_before_sending() {
    let (mut flow, _first) = SubscriptionFlow::start(sample_service(), FlowGoal::Link, None);
    let next = flow.on_response(200, String::from("{\"data\":{\"auth_data\":\"bad\\ntoken\"}}"));
    match next {
        FlowAction::Done(Err(AppError::InvalidHeaderValue)) => {}
        _ => panic!("expected InvalidHeaderValue"),
    }
}

#[test]
fn every_run_logs_in_afresh() {
    let svc = sample_service();
    let (mut first_run, first_call) = SubscriptionFlow::start(svc, FlowGoal::Link, None);
    assert!(matches!(first_call, UpstreamRequest::PostJson { .. }));
    let done = first_run.on_response(200, String::from(LOGIN_OK));
    assert!(matches!(done, FlowAction::Call(_)));
    // A second run over the same configuration starts from scratch: its
    // first upstream call is again the login POST, never a reuse of the
    // token the first run obtained.
    let (_second_run, second_call) = SubscriptionFlow::start(sample_service(), FlowGoal::Link, None);
    assert!(matches!(second_call, UpstreamRequest::PostJson { .. }));
}

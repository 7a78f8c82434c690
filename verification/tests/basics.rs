use vpn_sub_scraper::config::Config;
use vpn_sub_scraper::digits::parse_u16;
use vpn_sub_scraper::digits::u16_to_string;
use vpn_sub_scraper::error::AppError;

fn sample_config() -> Config {
    Config {
        xcvpn_email: String::from("user@example.com"),
        xcvpn_password: String::from("pw"),
        server_host: String::from("0.0.0.0"),
        server_port: 3000,
        login_url: String::from("https://upstream.example/api/v1/passport/auth/login"),
        subscribe_url: String::from("https://upstream.example/api/v1/user/getSubscribe"),
    }
}

#[test]
fn renders_decimal() {
    assert_eq!(u16_to_string(0), "0");
    assert_eq!(u16_to_string(9), "9");
    assert_eq!(u16_to_string(3000), "3000");
    assert_eq!(u16_to_string(65535), "65535");
}

#[test]
fn parses_ports() {
    assert_eq!(parse_u16("0"), Some(0));
    assert_eq!(parse_u16("3000"), Some(3000));
    assert_eq!(parse_u16("65535"), Some(65535));
    assert_eq!(parse_u16("0070"), Some(70));
    assert_eq!(parse_u16(""), None);
    assert_eq!(parse_u16("30a0"), None);
    assert_eq!(parse_u16("+1"), None);
    assert_eq!(parse_u16("65536"), None);
    assert_eq!(parse_u16("999999999999999999999999"), None);
}

#[test]
fn bind_address() {
    let config = sample_config();
    assert_eq!(config.addr(), "0.0.0.0:3000");
}

#[test]
fn error_status_mapping() {
    assert_eq!(AppError::ConfigMissing.http_status(), 500);
    assert_eq!(AppError::NetworkError.http_status(), 503);
    assert_eq!(
        AppError::LoginFailed { status: 403, body: String::from("x") }.http_status(),
        401
    );
    assert_eq!(AppError::AuthDataNotFound.http_status(), 500);
    assert_eq!(
        AppError::SubscribeFailed { status: 500, body: String::from("x") }.http_status(),
        401
    );
    assert_eq!(AppError::SubscribeUrlNotFound.http_status(), 500);
    assert_eq!(AppError::InvalidHeaderValue.http_status(), 500);
    assert_eq!(AppError::MalformedResponse.http_status(), 500);
    assert_eq!(AppError::RelayFailed { status: 404 }.http_status(), 500);
}

#[test]
fn error_messages() {
    let e = AppError::LoginFailed { status: 401, body: String::from("{\"error\":\"bad creds\"}") };
    assert_eq!(e.message(), "Login failed. Status: 401. Body: {\"error\":\"bad creds\"}");
    let e = AppError::SubscribeFailed { status: 418, body: String::from("teapot") };
    assert_eq!(e.message(), "Subscribe failed. Status: 418. Body: teapot");
    let e = AppError::RelayFailed { status: 503 };
    assert_eq!(e.message(), "Failed to fetch subscription message. Status: 503");
    assert_eq!(
        AppError::AuthDataNotFound.message(),
        "'auth_data' not found in the login response."
    );
    assert_eq!(
        AppError::SubscribeUrlNotFound.message(),
        "'subscribe_url' not found in the response."
    );
    let (status, message) = AppError::NetworkError.to_response();
    assert_eq!(status, 503);
    assert_eq!(message, "Failed to reach the upstream server.");
}

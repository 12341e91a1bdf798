use gomaluum_auth::auth::errors::AuthError;
use gomaluum_auth::http::client::{
    client_or_error, create_client_with_cookies, create_http_client, session_settings,
    set_common_headers, shared_settings, ACCEPT, ACCEPT_LANGUAGE, USER_AGENT,
};

#[test]
fn test_http_client_creation() {
    let client = create_http_client().unwrap();
    assert!(client.get("https://example.com").build().is_ok());
}

#[test]
fn test_client_with_cookies_creation() {
    let client = create_client_with_cookies().unwrap();
    assert!(client.get("https://example.com").build().is_ok());
}

#[test]
fn each_call_makes_a_client_of_its_own() {
    let first = create_client_with_cookies();
    let second = create_client_with_cookies();
    assert!(first.is_ok());
    assert!(second.is_ok());
}

#[test]
fn built_client_is_handed_on() {
    let built = reqwest::Client::builder().build();
    assert!(client_or_error(built).is_ok());
}

#[test]
fn builder_failure_is_an_internal_error() {
    let failed = reqwest::Client::builder().user_agent("bad\nagent").build();
    assert!(failed.is_err());
    let expected = match &failed {
        Err(error) => error.to_string(),
        Ok(_) => String::new(),
    };
    assert!(!expected.is_empty());
    match client_or_error(failed) {
        Err(AuthError::InternalError(detail)) => assert_eq!(detail, expected),
        other => panic!("unexpected result: {:?}", other.map(|_| ())),
    }
}

#[test]
fn session_settings_are_those_of_one_attempt() {
    let settings = session_settings();
    assert!(settings.cookie_store);
    assert_eq!(settings.pool_max_idle_per_host, 10);
    assert_eq!(settings.pool_idle_timeout_secs, 90);
    assert_eq!(settings.connect_timeout_secs, 10);
    assert_eq!(settings.request_timeout_secs, 30);
    assert!(settings.gzip);
    assert!(settings.brotli);
    assert!(settings.deflate);
    assert!(settings.tcp_nodelay);
    assert_eq!(settings.tcp_keepalive_secs, 60);
    assert_eq!(settings.max_redirects, 10);
    assert!(settings.http1_only);
    assert!(!settings.accept_invalid_certs);
}

#[test]
fn shared_settings_have_no_cookie_store() {
    let shared = shared_settings();
    let session = session_settings();
    assert!(!shared.cookie_store);
    assert_eq!(shared.pool_max_idle_per_host, session.pool_max_idle_per_host);
    assert_eq!(shared.pool_idle_timeout_secs, session.pool_idle_timeout_secs);
    assert_eq!(shared.connect_timeout_secs, session.connect_timeout_secs);
    assert_eq!(shared.request_timeout_secs, session.request_timeout_secs);
    assert_eq!(shared.max_redirects, 10);
    assert!(shared.http1_only);
    assert_ne!(shared, session);
}

#[test]
fn common_headers_are_those_of_a_browser() {
    let headers = set_common_headers();
    assert_eq!(headers.len(), 11);
    assert_eq!(headers.get("user-agent").unwrap(), USER_AGENT);
    assert_eq!(headers.get("User-Agent").unwrap(), USER_AGENT);
    assert_eq!(headers.get("accept").unwrap(), ACCEPT);
    assert_eq!(headers.get("accept-language").unwrap(), ACCEPT_LANGUAGE);
    assert_eq!(headers.get("accept-language").unwrap(), "en-US,en;q=0.9");
    assert_eq!(headers.get("accept-encoding").unwrap(), "gzip, deflate, br");
    assert_eq!(headers.get("cache-control").unwrap(), "no-cache");
    assert_eq!(headers.get("pragma").unwrap(), "no-cache");
    assert_eq!(headers.get("upgrade-insecure-requests").unwrap(), "1");
    assert_eq!(headers.get("sec-fetch-dest").unwrap(), "document");
    assert_eq!(headers.get("sec-fetch-mode").unwrap(), "navigate");
    assert_eq!(headers.get("sec-fetch-site").unwrap(), "none");
    assert_eq!(headers.get("sec-fetch-user").unwrap(), "?1");
    assert!(headers.get("authorization").is_none());
    assert!(USER_AGENT.starts_with("Mozilla/5.0"));
}

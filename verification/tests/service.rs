use gomaluum_auth::auth::errors::AuthError;
use gomaluum_auth::auth::service::{AuthService, Cookie};

fn cookie(name: &str, value: &str) -> Cookie {
    Cookie { name: name.to_string(), value: value.to_string() }
}

#[test]
fn test_auth_service_creation() {
    let service = AuthService::new();
    assert!(service.is_ok());
}

#[test]
fn test_form_data_creation() {
    let service = AuthService::new().unwrap();
    let form = service.create_form_data("testuser", "testpass");

    assert_eq!(form.get("username").unwrap(), "testuser");
    assert_eq!(form.get("password").unwrap(), "testpass");
    assert_eq!(form.get("execution").unwrap(), "e1s1");
    assert_eq!(form.get("_eventId").unwrap(), "submit");
    assert_eq!(form.get("geolocation").unwrap(), "");
}

#[test]
fn form_has_exactly_five_fields() {
    let service = AuthService::new().unwrap();
    let form = service.create_form_data("alice", "secret");
    let entries = form.entries();
    assert_eq!(
        entries,
        vec![
            ("username".to_string(), "alice".to_string()),
            ("password".to_string(), "secret".to_string()),
            ("execution".to_string(), "e1s1".to_string()),
            ("_eventId".to_string(), "submit".to_string()),
            ("geolocation".to_string(), String::new()),
        ]
    );
    assert_eq!(form.get("Username"), None);
    assert_eq!(form.get("_eventid"), None);
    assert_eq!(form.get("service"), None);
    assert_eq!(form.get(""), None);
}

#[test]
fn form_constants_do_not_follow_the_credentials() {
    let service = AuthService::new().unwrap();
    let form = service.create_form_data("execution", "geolocation");
    assert_eq!(form.get("username"), Some("execution"));
    assert_eq!(form.get("password"), Some("geolocation"));
    assert_eq!(form.get("execution"), Some("e1s1"));
    assert_eq!(form.get("_eventId"), Some("submit"));
    assert_eq!(form.get("geolocation"), Some(""));
}

#[test]
fn form_is_the_same_for_the_same_credentials() {
    let service = AuthService::default();
    let first = service.create_form_data("u", "p").entries();
    let second = service.create_form_data("u", "p").entries();
    assert_eq!(first, second);
}

#[test]
fn marker_with_success_status_is_a_failed_login() {
    let service = AuthService::new().unwrap();
    let verdict = service.verify_submission(200, "<html>Invalid credentials</html>");
    assert!(matches!(verdict, Err(AuthError::LoginFailed)));
    let verdict = service.verify_submission(200, "Login failed");
    assert!(matches!(verdict, Err(AuthError::LoginFailed)));
    let verdict = service.verify_submission(302, "... Login failed ...");
    assert!(matches!(verdict, Err(AuthError::LoginFailed)));
}

#[test]
fn status_outside_success_and_redirect_is_a_failed_login() {
    let service = AuthService::new().unwrap();
    assert!(matches!(service.verify_submission(401, ""), Err(AuthError::LoginFailed)));
    assert!(matches!(service.verify_submission(400, "ok"), Err(AuthError::LoginFailed)));
    assert!(matches!(service.verify_submission(500, "ok"), Err(AuthError::LoginFailed)));
    assert!(matches!(service.verify_submission(199, "ok"), Err(AuthError::LoginFailed)));
    assert!(matches!(service.verify_submission(0, "ok"), Err(AuthError::LoginFailed)));
    assert!(matches!(service.verify_submission(65535, "ok"), Err(AuthError::LoginFailed)));
}

#[test]
fn clean_answer_with_success_or_redirect_is_accepted() {
    let service = AuthService::new().unwrap();
    assert!(service.verify_submission(200, "").is_ok());
    assert!(service.verify_submission(200, "<html>welcome</html>").is_ok());
    assert!(service.verify_submission(299, "welcome").is_ok());
    assert!(service.verify_submission(300, "welcome").is_ok());
    assert!(service.verify_submission(302, "").is_ok());
    assert!(service.verify_submission(399, "invalid credentials").is_ok());
}

#[test]
fn token_is_the_value_of_the_auth_cookie() {
    let service = AuthService::new().unwrap();
    let cookies = vec![cookie("JSESSIONID", "j1"), cookie("MOD_AUTH_CAS", "abc123")];
    assert_eq!(service.extract_auth_token(&cookies).unwrap(), "abc123");
}

#[test]
fn first_auth_cookie_wins() {
    let service = AuthService::new().unwrap();
    let cookies = vec![
        cookie("a", "1"),
        cookie("MOD_AUTH_CAS", "first"),
        cookie("MOD_AUTH_CAS", "second"),
    ];
    assert_eq!(service.extract_auth_token(&cookies).unwrap(), "first");
}

#[test]
fn missing_auth_cookie_is_reported() {
    let service = AuthService::new().unwrap();
    let none: Vec<Cookie> = Vec::new();
    assert!(matches!(service.extract_auth_token(&none), Err(AuthError::AuthCookieNotFound)));
    let others = vec![cookie("mod_auth_cas", "x"), cookie("MOD_AUTH_CAS2", "y"), cookie("", "z")];
    assert!(matches!(service.extract_auth_token(&others), Err(AuthError::AuthCookieNotFound)));
}

#[test]
fn empty_token_is_still_a_token() {
    let service = AuthService::new().unwrap();
    let cookies = vec![cookie("MOD_AUTH_CAS", "")];
    assert_eq!(service.extract_auth_token(&cookies).unwrap(), "");
}

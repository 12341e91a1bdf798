use gomaluum_auth::auth::errors::Code;
use gomaluum_auth::middleware::{
    check_auth, AuthGate, AuthzError, EchoRequest, EchoServer,
};

#[test]
fn gate_accepts_the_exact_bearer_value() {
    assert_eq!(check_auth(Some("x"), Some("Bearer x")), Ok(()));
}

#[test]
fn gate_rejects_another_token() {
    assert_eq!(check_auth(Some("x"), Some("Bearer y")), Err(AuthzError::InvalidToken));
}

#[test]
fn gate_rejects_a_missing_header() {
    assert_eq!(check_auth(Some("x"), None), Err(AuthzError::InvalidToken));
}

#[test]
fn gate_without_secret_fails_whatever_the_header() {
    assert_eq!(check_auth(None, Some("Bearer x")), Err(AuthzError::MissingSecret));
    assert_eq!(check_auth(None, Some("Bearer ")), Err(AuthzError::MissingSecret));
    assert_eq!(check_auth(None, None), Err(AuthzError::MissingSecret));
}

#[test]
fn gate_matches_byte_for_byte() {
    assert_eq!(check_auth(Some("x"), Some("bearer x")), Err(AuthzError::InvalidToken));
    assert_eq!(check_auth(Some("x"), Some("Bearer  x")), Err(AuthzError::InvalidToken));
    assert_eq!(check_auth(Some("x"), Some("Bearer x ")), Err(AuthzError::InvalidToken));
    assert_eq!(check_auth(Some("x"), Some(" Bearer x")), Err(AuthzError::InvalidToken));
    assert_eq!(check_auth(Some("x"), Some("Bearer X")), Err(AuthzError::InvalidToken));
    assert_eq!(check_auth(Some("x"), Some("x")), Err(AuthzError::InvalidToken));
    assert_eq!(check_auth(Some("x"), Some("")), Err(AuthzError::InvalidToken));
    assert_eq!(check_auth(Some("x"), Some("Bearer xx")), Err(AuthzError::InvalidToken));
    assert_eq!(check_auth(Some("sécret"), Some("Bearer sécret")), Ok(()));
    assert_eq!(check_auth(Some("sécret"), Some("Bearer secret")), Err(AuthzError::InvalidToken));
}

#[test]
fn gate_with_an_empty_secret_expects_the_bare_prefix() {
    assert_eq!(check_auth(Some(""), Some("Bearer ")), Ok(()));
    assert_eq!(check_auth(Some(""), Some("Bearer")), Err(AuthzError::InvalidToken));
}

#[test]
fn gate_value_holds_the_secret() {
    let gate = AuthGate::new(Some("s3cr3t".to_string()));
    assert_eq!(gate.authorize(Some("Bearer s3cr3t")), Ok(()));
    assert_eq!(gate.authorize(Some("Bearer other")), Err(AuthzError::InvalidToken));
    assert_eq!(gate.authorize(None), Err(AuthzError::InvalidToken));

    let unset = AuthGate::new(None);
    assert_eq!(unset.authorize(Some("Bearer s3cr3t")), Err(AuthzError::MissingSecret));
    assert_eq!(unset.authorize(None), Err(AuthzError::MissingSecret));
}

#[test]
fn gate_verdict_does_not_depend_on_earlier_calls() {
    let gate = AuthGate::new(Some("x".to_string()));
    assert_eq!(gate.authorize(Some("Bearer y")), Err(AuthzError::InvalidToken));
    assert_eq!(gate.authorize(Some("Bearer x")), Ok(()));
    assert_eq!(gate.authorize(Some("Bearer y")), Err(AuthzError::InvalidToken));
    assert_eq!(gate.authorize(Some("Bearer x")), Ok(()));
}

#[test]
fn refusals_are_reported_under_their_categories() {
    let status = AuthzError::InvalidToken.status();
    assert_eq!(status.code(), Code::Unauthenticated);
    assert_eq!(status.message(), "No valid auth token");

    let status = AuthzError::MissingSecret.status();
    assert_eq!(status.code(), Code::Internal);
    assert_eq!(status.message(), "Server misconfiguration: missing auth token");
}

#[test]
fn echo_answers_with_the_message() {
    let server = EchoServer::default();
    let response = server.unary_echo(EchoRequest { message: "hello".to_string() });
    assert_eq!(response.message, "hello");
    let response = server.unary_echo(EchoRequest { message: String::new() });
    assert_eq!(response.message, "");
}

use gomaluum_auth::auth::constants::{
    CAS_ROOT, IMALUUM_CAS_PAGE, IMALUUM_LOGIN_PAGE, IMALUUM_PAGE,
};
use gomaluum_auth::auth::errors::{AuthError, Operation};
use gomaluum_auth::auth::flow::{
    HttpReply, HttpRequest, LoginAction, LoginEvent, LoginFlow, LoginState, Method,
};
use gomaluum_auth::auth::service::{AuthService, Cookie};

fn reply(status: u16, body: &str, cookies: &[(&str, &str)]) -> LoginEvent {
    LoginEvent::Reply(HttpReply {
        status,
        body: body.to_string(),
        cookies: cookies
            .iter()
            .map(|(name, value)| Cookie { name: name.to_string(), value: value.to_string() })
            .collect(),
    })
}

fn start(username: &str, password: &str) -> (LoginFlow, LoginAction) {
    AuthService::new().unwrap().login(username.to_string(), password.to_string())
}

fn sent(action: LoginAction) -> HttpRequest {
    match action {
        LoginAction::Send(request) => request,
        LoginAction::Finish => panic!("the attempt ended where a request was expected"),
    }
}

/// Runs an attempt against a portal given as a list of events, one for each
/// request, and returns the requests that were sent and the result.
fn run(
    username: &str,
    password: &str,
    portal: Vec<LoginEvent>,
) -> (Vec<HttpRequest>, Option<Result<(String, String, String), AuthError>>) {
    let (mut flow, mut action) = start(username, password);
    let mut requests = Vec::new();
    for event in portal {
        match action {
            LoginAction::Send(request) => requests.push(request),
            LoginAction::Finish => break,
        }
        let next = flow.step(event);
        flow = next.0;
        action = next.1;
    }
    if let LoginAction::Send(request) = action {
        requests.push(request);
    }
    (requests, flow.into_result())
}

#[test]
fn login_succeeds_end_to_end() {
    let (requests, result) = run(
        "alice",
        "secret",
        vec![
            reply(302, "", &[]),
            reply(302, "", &[]),
            reply(200, "<html>home</html>", &[("MOD_AUTH_CAS", "abc123")]),
        ],
    );
    assert_eq!(
        result.unwrap().unwrap(),
        ("abc123".to_string(), "alice".to_string(), "secret".to_string())
    );
    assert_eq!(requests.len(), 3);
}

#[test]
fn handshake_sends_bootstrap_then_submit_then_extract() {
    let (requests, _) = run(
        "alice",
        "secret",
        vec![
            reply(200, "", &[]),
            reply(200, "", &[]),
            reply(200, "", &[("MOD_AUTH_CAS", "t")]),
        ],
    );
    assert_eq!(requests.len(), 3);

    assert_eq!(requests[0].method, Method::Get);
    assert_eq!(requests[0].url, IMALUUM_CAS_PAGE);
    assert!(requests[0].headers.is_empty());
    assert!(requests[0].form.is_none());

    assert_eq!(requests[1].method, Method::Post);
    assert_eq!(requests[1].url, IMALUUM_LOGIN_PAGE);
    assert_eq!(
        requests[1].headers,
        vec![
            ("Content-Type".to_string(), "application/x-www-form-urlencoded".to_string()),
            ("Referer".to_string(), IMALUUM_CAS_PAGE.to_string()),
            ("Origin".to_string(), CAS_ROOT.to_string()),
        ]
    );
    let form = requests[1].form.as_ref().unwrap();
    assert_eq!(form.get("username"), Some("alice"));
    assert_eq!(form.get("password"), Some("secret"));
    assert_eq!(form.get("execution"), Some("e1s1"));
    assert_eq!(form.get("_eventId"), Some("submit"));
    assert_eq!(form.get("geolocation"), Some(""));

    assert_eq!(requests[2].method, Method::Get);
    assert_eq!(requests[2].url, IMALUUM_PAGE);
    assert!(requests[2].headers.is_empty());
    assert!(requests[2].form.is_none());
}

#[test]
fn early_cookie_does_not_end_the_handshake() {
    let (flow, action) = start("alice", "secret");
    assert!(matches!(flow.state(), LoginState::Init));
    assert_eq!(sent(action).url, IMALUUM_CAS_PAGE);

    // The portal hands the cookie out on the first GET already.
    let (flow, action) = flow.step(reply(200, "", &[("MOD_AUTH_CAS", "abc123")]));
    assert!(matches!(flow.state(), LoginState::Submitting));
    assert!(!flow.is_finished());
    assert_eq!(sent(action).method, Method::Post);

    // Nothing comes with the answer to the POST.
    let (flow, action) = flow.step(reply(302, "", &[]));
    assert!(matches!(flow.state(), LoginState::Extracting));
    assert!(!flow.is_finished());
    assert_eq!(sent(action).url, IMALUUM_PAGE);

    // Only the third response ends the attempt.
    let (flow, action) = flow.step(reply(200, "", &[("MOD_AUTH_CAS", "abc123")]));
    assert!(matches!(action, LoginAction::Finish));
    assert!(flow.is_finished());
    assert_eq!(
        flow.into_result().unwrap().unwrap(),
        ("abc123".to_string(), "alice".to_string(), "secret".to_string())
    );
}

#[test]
fn token_is_taken_from_the_last_response() {
    let (requests, result) = run(
        "alice",
        "secret",
        vec![
            reply(200, "", &[("MOD_AUTH_CAS", "early")]),
            reply(302, "", &[("MOD_AUTH_CAS", "middle")]),
            reply(200, "", &[("MOD_AUTH_CAS", "late")]),
        ],
    );
    assert_eq!(requests.len(), 3);
    assert_eq!(result.unwrap().unwrap().0, "late");
}

#[test]
fn early_cookie_alone_is_not_a_token() {
    let (requests, result) = run(
        "alice",
        "secret",
        vec![
            reply(200, "", &[("MOD_AUTH_CAS", "early")]),
            reply(302, "", &[]),
            reply(200, "", &[]),
        ],
    );
    assert_eq!(requests.len(), 3);
    assert!(matches!(result, Some(Err(AuthError::AuthCookieNotFound))));
}

#[test]
fn invalid_credentials_marker_fails_the_login_despite_status_200() {
    let (requests, result) = run(
        "alice",
        "wrong",
        vec![
            reply(200, "", &[]),
            reply(200, "<div>Invalid credentials.</div>", &[("MOD_AUTH_CAS", "x")]),
            reply(200, "", &[("MOD_AUTH_CAS", "x")]),
        ],
    );
    assert_eq!(requests.len(), 2);
    assert!(matches!(result, Some(Err(AuthError::LoginFailed))));
}

#[test]
fn test_login_with_invalid_credentials() {
    let (_, result) = run(
        "invalid_user",
        "invalid_pass",
        vec![
            reply(200, "<html>login</html>", &[("JSESSIONID", "s1")]),
            reply(200, "<html>Invalid credentials.</html>", &[]),
        ],
    );

    // This should fail with invalid credentials
    assert!(result.unwrap().is_err());
}

#[test]
fn login_failed_marker_fails_the_login() {
    let (_, result) = run(
        "alice",
        "wrong",
        vec![reply(200, "", &[]), reply(302, "Login failed", &[])],
    );
    assert!(matches!(result, Some(Err(AuthError::LoginFailed))));
}

#[test]
fn error_status_on_submission_fails_the_login() {
    let (requests, result) =
        run("alice", "secret", vec![reply(200, "", &[]), reply(500, "oops", &[])]);
    assert_eq!(requests.len(), 2);
    assert!(matches!(result, Some(Err(AuthError::LoginFailed))));
}

#[test]
fn bootstrap_status_is_only_advisory() {
    let (requests, result) = run(
        "alice",
        "secret",
        vec![
            reply(503, "Login failed", &[]),
            reply(200, "", &[]),
            reply(404, "Invalid credentials", &[("MOD_AUTH_CAS", "tok")]),
        ],
    );
    assert_eq!(requests.len(), 3);
    assert_eq!(result.unwrap().unwrap().0, "tok");
}

#[test]
fn transport_failures_are_named_after_their_request() {
    let (requests, result) =
        run("alice", "secret", vec![LoginEvent::TransportFailed("dns".to_string())]);
    assert_eq!(requests.len(), 1);
    match result {
        Some(Err(AuthError::RequestFailed(operation, detail))) => {
            assert_eq!(operation, Operation::Bootstrap);
            assert_eq!(detail, "dns");
        }
        other => panic!("unexpected result: {:?}", other),
    }

    let (requests, result) = run(
        "alice",
        "secret",
        vec![reply(200, "", &[]), LoginEvent::TransportFailed("reset".to_string())],
    );
    assert_eq!(requests.len(), 2);
    match result {
        Some(Err(AuthError::RequestFailed(operation, detail))) => {
            assert_eq!(operation, Operation::Submit);
            assert_eq!(detail, "reset");
        }
        other => panic!("unexpected result: {:?}", other),
    }

    let (requests, result) = run(
        "alice",
        "secret",
        vec![
            reply(200, "", &[]),
            reply(200, "", &[]),
            LoginEvent::TransportFailed("timeout".to_string()),
        ],
    );
    assert_eq!(requests.len(), 3);
    match result {
        Some(Err(AuthError::RequestFailed(operation, detail))) => {
            assert_eq!(operation, Operation::Extract);
            assert_eq!(detail, "timeout");
        }
        other => panic!("unexpected result: {:?}", other),
    }
}

#[test]
fn unfinished_attempt_has_no_result() {
    let (flow, _) = start("alice", "secret");
    assert!(flow.into_result().is_none());

    let (flow, _) = start("alice", "secret");
    let (flow, _) = flow.step(reply(200, "", &[]));
    assert!(flow.into_result().is_none());

    let (flow, _) = start("alice", "secret");
    let (flow, _) = flow.step(reply(200, "", &[]));
    let (flow, _) = flow.step(reply(200, "", &[]));
    assert!(flow.into_result().is_none());
}

#[test]
fn finished_attempt_stays_as_it_is() {
    let (flow, _) = start("alice", "secret");
    let (flow, _) = flow.step(reply(200, "", &[]));
    let (flow, _) = flow.step(reply(200, "", &[]));
    let (flow, _) = flow.step(reply(200, "", &[("MOD_AUTH_CAS", "tok")]));
    let (flow, action) = flow.step(reply(200, "Login failed", &[("MOD_AUTH_CAS", "other")]));
    assert!(matches!(action, LoginAction::Finish));
    let (flow, action) = flow.step(LoginEvent::TransportFailed("late".to_string()));
    assert!(matches!(action, LoginAction::Finish));
    assert_eq!(flow.into_result().unwrap().unwrap().0, "tok");

    let (flow, _) = start("alice", "secret");
    let (flow, _) = flow.step(LoginEvent::TransportFailed("dns".to_string()));
    let (flow, action) = flow.step(reply(200, "", &[("MOD_AUTH_CAS", "tok")]));
    assert!(matches!(action, LoginAction::Finish));
    let (flow, _) = flow.step(reply(200, "", &[("MOD_AUTH_CAS", "tok")]));
    let (flow, _) = flow.step(reply(200, "", &[("MOD_AUTH_CAS", "tok")]));
    assert!(matches!(
        flow.into_result(),
        Some(Err(AuthError::RequestFailed(Operation::Bootstrap, _)))
    ));
}

#[test]
fn rejected_home_address_fails_the_attempt() {
    let (flow, _) = start("alice", "secret");
    let (flow, _) = flow.advance(reply(200, "", &[]), Err("ignored".to_string()));
    assert!(matches!(flow.state(), LoginState::Submitting));
    let (flow, action) = flow.advance(reply(200, "", &[]), Err("empty host".to_string()));
    assert!(matches!(action, LoginAction::Finish));
    match flow.into_result() {
        Some(Err(AuthError::URLParseFailed(detail))) => assert_eq!(detail, "empty host"),
        other => panic!("unexpected result: {:?}", other),
    }
}

#[test]
fn extraction_goes_to_the_parsed_home_address() {
    let (flow, _) = start("alice", "secret");
    let (flow, _) = flow.advance(reply(200, "", &[]), Ok("https://ignored.example/".to_string()));
    let (flow, action) =
        flow.advance(reply(200, "", &[]), Ok("https://home.example/".to_string()));
    assert!(matches!(flow.state(), LoginState::Extracting));
    let request = sent(action);
    assert_eq!(request.method, Method::Get);
    assert_eq!(request.url, "https://home.example/");
}

#[test]
fn rejected_submission_comes_before_the_home_address() {
    let (flow, _) = start("alice", "secret");
    let (flow, _) = flow.advance(reply(200, "", &[]), Err("x".to_string()));
    let (flow, _) = flow.advance(reply(200, "Login failed", &[]), Err("empty host".to_string()));
    assert!(matches!(flow.into_result(), Some(Err(AuthError::LoginFailed))));
}

#[test]
fn attempts_do_not_share_anything() {
    let (a, _) = start("alice", "secret-a");
    let (b, _) = start("bob", "secret-b");
    let (a, _) = a.step(reply(200, "", &[]));
    let (b, _) = b.step(reply(200, "", &[]));
    let (b, _) = b.step(reply(200, "Invalid credentials", &[]));
    let (a, _) = a.step(reply(302, "", &[]));
    let (b, _) = b.step(reply(200, "", &[("MOD_AUTH_CAS", "token-b")]));
    let (a, _) = a.step(reply(200, "", &[("MOD_AUTH_CAS", "token-a")]));
    assert_eq!(
        a.into_result().unwrap().unwrap(),
        ("token-a".to_string(), "alice".to_string(), "secret-a".to_string())
    );
    assert!(matches!(b.into_result(), Some(Err(AuthError::LoginFailed))));
}

//! The remote face of the login operation: what is checked before an
//! attempt begins, and how its result is reported.

use crate::auth::errors::{AuthError, AuthErrorView, AuthResult, Code, Status, StatusView};
use crate::auth::flow::{bootstrap_request, initial_flow, LoginAction, LoginActionView, LoginFlow};
use crate::auth::service::AuthService;
use vstd::prelude::*;
use vstd::string::*;

verus! {

/// A remote login request.
#[derive(Debug)]
pub struct LoginRequest {
    pub username: String,
    pub password: String,
}

/// The answer to a successful login.
#[derive(Debug)]
pub struct LoginResponse {
    pub token: String,
    pub username: String,
    pub password: String,
}

/// Mathematical value of a [`LoginResponse`].
pub struct LoginResponseView {
    pub token: Seq<char>,
    pub username: Seq<char>,
    pub password: Seq<char>,
}

impl View for LoginResponse {
    type V = LoginResponseView;

    open spec fn view(&self) -> LoginResponseView {
        LoginResponseView {
            token: self.token@,
            username: self.username@,
            password: self.password@,
        }
    }
}

/// What is wrong with a pair of credentials, if anything: the text of the
/// refusal. The username is looked at first.
pub open spec fn credentials_fault(username: Seq<char>, password: Seq<char>) -> Option<Seq<char>> {
    if username.len() == 0 {
        Some("Username cannot be empty"@)
    } else if password.len() == 0 {
        Some("Password cannot be empty"@)
    } else {
        None
    }
}

/// Credentials are at fault exactly when the username or the password is
/// empty.
pub proof fn lemma_fault_iff_empty(username: Seq<char>, password: Seq<char>)
    ensures
        credentials_fault(username, password) is Some <==> (username.len() == 0 || password.len()
            == 0),
{
}

/// The report of an attempt's result: the response on success, and on
/// failure the status of the failure's category with its text.
pub open spec fn report_model(
    outcome: Result<(Seq<char>, Seq<char>, Seq<char>), AuthErrorView>,
) -> Result<LoginResponseView, StatusView> {
    match outcome {
        Ok((token, username, password)) => Ok(LoginResponseView { token, username, password }),
        Err(error) => Err(StatusView { code: error.code(), message: error.message() }),
    }
}

/// Mathematical value of a report.
pub open spec fn report_view(report: Result<LoginResponse, Status>) -> Result<
    LoginResponseView,
    StatusView,
> {
    match report {
        Ok(response) => Ok(response@),
        Err(status) => Err(status@),
    }
}

/// Mathematical value of an attempt's result.
pub open spec fn result_view(outcome: AuthResult<(String, String, String)>) -> Result<
    (Seq<char>, Seq<char>, Seq<char>),
    AuthErrorView,
> {
    match outcome {
        Ok((token, username, password)) => Ok((token@, username@, password@)),
        Err(error) => Err(error@),
    }
}

/// Serves login requests.
#[derive(Debug)]
pub struct GRPCServer {
    auth_service: AuthService,
}

impl GRPCServer {
    /// Creates the server. This never fails.
    pub fn new() -> (server: Result<Self, AuthError>)
        ensures
            server is Ok,
    {
        match AuthService::new() {
            Ok(auth_service) => Ok(GRPCServer { auth_service }),
            Err(error) => Err(error),
        }
    }

    /// Takes a login request in. Credentials with an empty username or an
    /// empty password are refused as an invalid argument, and no attempt is
    /// begun for them; for any other credentials an attempt begins.
    pub fn login(&self, request: LoginRequest) -> (start: Result<(LoginFlow, LoginAction), Status>)
        ensures
            match credentials_fault(request.username@, request.password@) {
                Some(text) => start matches Err(status) && status@ == (StatusView {
                    code: Code::InvalidArgument,
                    message: text,
                }),
                None => start matches Ok(begun) && begun.0@ == initial_flow(
                    request.username@,
                    request.password@,
                ) && begun.1@ == LoginActionView::Send(bootstrap_request()),
            },
    {
        if request.username.as_str().is_empty() {
            return Err(Status::new(Code::InvalidArgument, "Username cannot be empty"));
        }
        if request.password.as_str().is_empty() {
            return Err(Status::new(Code::InvalidArgument, "Password cannot be empty"));
        }
        Ok(self.auth_service.login(request.username, request.password))
    }

    /// Reports the result of an attempt to the remote caller.
    pub fn respond(&self, outcome: AuthResult<(String, String, String)>) -> (report: Result<
        LoginResponse,
        Status,
    >)
        ensures
            report_view(report) == report_model(result_view(outcome)),
    {
        match outcome {
            Ok((token, username, password)) => Ok(LoginResponse { token, username, password }),
            Err(error) => Err(Status::from_error(&error)),
        }
    }
}

impl Default for GRPCServer {
    fn default() -> (server: Self) {
        GRPCServer { auth_service: AuthService }
    }
}

} // verus!

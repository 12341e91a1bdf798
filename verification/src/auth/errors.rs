//! Failures of a login attempt, and the remote-error category each one is
//! reported under.

use vstd::prelude::*;
use vstd::string::*;

verus! {

/// The request of the handshake during which a transport failure occurred.
#[derive(Clone, Copy, Debug, PartialEq, Eq, Structural)]
pub enum Operation {
    /// The first `GET`, which opens the session.
    Bootstrap,
    /// The `POST` that submits the credentials.
    Submit,
    /// The final `GET`, whose response carries the authentication cookie.
    Extract,
}

/// Why a login attempt failed.
#[derive(Debug)]
pub enum AuthError {
    CookieJarCreationFailed,
    /// A portal address could not be parsed; holds the parser's description.
    URLParseFailed(String),
    /// A request failed below HTTP (DNS, connect, TLS, timeout); holds the
    /// request it happened in and the transport's description.
    RequestFailed(Operation, String),
    FailedToCloseRequestBody,
    FailedToCloseResponseBody,
    /// The portal rejected the credentials.
    LoginFailed,
    /// The handshake completed without the authentication cookie.
    AuthCookieNotFound,
    InvalidAuthResponse,
    NetworkTimeout,
    InternalError(String),
}

/// Result of an authentication operation.
pub type AuthResult<T> = Result<T, AuthError>;

/// Mathematical value of an [`AuthError`].
pub enum AuthErrorView {
    CookieJarCreationFailed,
    URLParseFailed(Seq<char>),
    RequestFailed(Operation, Seq<char>),
    FailedToCloseRequestBody,
    FailedToCloseResponseBody,
    LoginFailed,
    AuthCookieNotFound,
    InvalidAuthResponse,
    NetworkTimeout,
    InternalError(Seq<char>),
}

impl View for AuthError {
    type V = AuthErrorView;

    open spec fn view(&self) -> AuthErrorView {
        match self {
            AuthError::CookieJarCreationFailed => AuthErrorView::CookieJarCreationFailed,
            AuthError::URLParseFailed(detail) => AuthErrorView::URLParseFailed(detail@),
            AuthError::RequestFailed(operation, detail) => AuthErrorView::RequestFailed(
                *operation,
                detail@,
            ),
            AuthError::FailedToCloseRequestBody => AuthErrorView::FailedToCloseRequestBody,
            AuthError::FailedToCloseResponseBody => AuthErrorView::FailedToCloseResponseBody,
            AuthError::LoginFailed => AuthErrorView::LoginFailed,
            AuthError::AuthCookieNotFound => AuthErrorView::AuthCookieNotFound,
            AuthError::InvalidAuthResponse => AuthErrorView::InvalidAuthResponse,
            AuthError::NetworkTimeout => AuthErrorView::NetworkTimeout,
            AuthError::InternalError(detail) => AuthErrorView::InternalError(detail@),
        }
    }
}

/// Remote-error category that a failure is reported under.
#[derive(Clone, Copy, Debug, PartialEq, Eq, Structural)]
pub enum Code {
    Unauthenticated,
    InvalidArgument,
    DeadlineExceeded,
    Unavailable,
    Internal,
}

impl AuthErrorView {
    /// The text that describes the failure.
    pub open spec fn message(self) -> Seq<char> {
        match self {
            AuthErrorView::CookieJarCreationFailed => "Failed to create cookie jar"@,
            AuthErrorView::URLParseFailed(detail) => "Failed to parse URL: "@ + detail,
            AuthErrorView::RequestFailed(_, detail) => "HTTP request failed: "@ + detail,
            AuthErrorView::FailedToCloseRequestBody => "Failed to close request body"@,
            AuthErrorView::FailedToCloseResponseBody => "Failed to close response body"@,
            AuthErrorView::LoginFailed =>
                "Login failed: Invalid credentials or authentication token not found"@,
            AuthErrorView::AuthCookieNotFound => "Authentication cookie not found"@,
            AuthErrorView::InvalidAuthResponse => "Invalid response from authentication server"@,
            AuthErrorView::NetworkTimeout => "Network timeout"@,
            AuthErrorView::InternalError(detail) => "Internal server error: "@ + detail,
        }
    }

    /// The category the failure is reported under: exactly one per kind.
    pub open spec fn code(self) -> Code {
        match self {
            AuthErrorView::LoginFailed | AuthErrorView::AuthCookieNotFound => Code::Unauthenticated,
            AuthErrorView::URLParseFailed(_) | AuthErrorView::InvalidAuthResponse =>
                Code::InvalidArgument,
            AuthErrorView::NetworkTimeout => Code::DeadlineExceeded,
            AuthErrorView::RequestFailed(_, _) => Code::Unavailable,
            AuthErrorView::CookieJarCreationFailed
            | AuthErrorView::FailedToCloseRequestBody
            | AuthErrorView::FailedToCloseResponseBody
            | AuthErrorView::InternalError(_) => Code::Internal,
        }
    }
}

impl AuthError {
    /// The text that describes the failure.
    pub fn message(&self) -> (text: String)
        ensures
            text@ == self@.message(),
    {
        match self {
            AuthError::CookieJarCreationFailed => String::from_str("Failed to create cookie jar"),
            AuthError::URLParseFailed(detail) => String::from_str("Failed to parse URL: ").concat(
                detail.as_str(),
            ),
            AuthError::RequestFailed(_, detail) => String::from_str(
                "HTTP request failed: ",
            ).concat(detail.as_str()),
            AuthError::FailedToCloseRequestBody => String::from_str("Failed to close request body"),
            AuthError::FailedToCloseResponseBody => String::from_str(
                "Failed to close response body",
            ),
            AuthError::LoginFailed => String::from_str(
                "Login failed: Invalid credentials or authentication token not found",
            ),
            AuthError::AuthCookieNotFound => String::from_str("Authentication cookie not found"),
            AuthError::InvalidAuthResponse => String::from_str(
                "Invalid response from authentication server",
            ),
            AuthError::NetworkTimeout => String::from_str("Network timeout"),
            AuthError::InternalError(detail) => String::from_str("Internal server error: ").concat(
                detail.as_str(),
            ),
        }
    }

    /// The category the failure is reported under.
    pub fn code(&self) -> (code: Code)
        ensures
            code == self@.code(),
    {
        match self {
            AuthError::LoginFailed | AuthError::AuthCookieNotFound => Code::Unauthenticated,
            AuthError::URLParseFailed(_) | AuthError::InvalidAuthResponse => Code::InvalidArgument,
            AuthError::NetworkTimeout => Code::DeadlineExceeded,
            AuthError::RequestFailed(_, _) => Code::Unavailable,
            _ => Code::Internal,
        }
    }
}

/// A failure as the remote caller sees it: a category and a text.
#[derive(Debug)]
pub struct Status {
    code: Code,
    message: String,
}

/// Mathematical value of a [`Status`].
pub struct StatusView {
    pub code: Code,
    pub message: Seq<char>,
}

impl View for Status {
    type V = StatusView;

    closed spec fn view(&self) -> StatusView {
        StatusView { code: self.code, message: self.message@ }
    }
}

impl Status {
    /// A status of category `code` with the text `message`.
    pub fn new(code: Code, message: &str) -> (status: Status)
        ensures
            status@ == (StatusView { code, message: message@ }),
    {
        Status { code, message: String::from_str(message) }
    }

    /// The status that `error` is reported as: its category and its text.
    pub fn from_error(error: &AuthError) -> (status: Status)
        ensures
            status@ == (StatusView { code: error@.code(), message: error@.message() }),
    {
        Status { code: error.code(), message: error.message() }
    }

    pub fn code(&self) -> (code: Code)
        ensures
            code == self@.code,
    {
        self.code
    }

    pub fn message(&self) -> (text: &str)
        ensures
            text@ == self@.message,
    {
        self.message.as_str()
    }
}

} // verus!

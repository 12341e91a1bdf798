//! The authorization gate in front of every remote call, and the echo
//! operation that demonstrates it.

use crate::auth::errors::{Code, Status, StatusView};
use crate::text::str_equal;
use vstd::prelude::*;
use vstd::string::*;

verus! {

/// Why a call was turned away.
#[derive(Clone, Copy, Debug, PartialEq, Eq, Structural)]
pub enum AuthzError {
    /// The process was started without the secret: an operator's fault, not
    /// the caller's.
    MissingSecret,
    /// The call carried no `authorization` entry, or one that does not match.
    InvalidToken,
}

/// The `authorization` value that is let through for `secret`.
pub open spec fn bearer_header(secret: Seq<char>) -> Seq<char> {
    "Bearer "@ + secret
}

/// The verdict on a call: a pure function of the configured secret and of the
/// call's `authorization` entry.
pub open spec fn gate_verdict(secret: Option<Seq<char>>, authorization: Option<Seq<char>>) -> Result<
    (),
    AuthzError,
> {
    match secret {
        None => Err(AuthzError::MissingSecret),
        Some(secret) => if authorization == Some(bearer_header(secret)) {
            Ok(())
        } else {
            Err(AuthzError::InvalidToken)
        },
    }
}

/// A call passes exactly when a secret is configured and the call's
/// `authorization` entry is `"Bearer "` followed by that secret. Without a
/// secret every call fails as a misconfiguration, whatever it carries; with
/// one, a missing entry or any other value is an invalid token.
pub proof fn lemma_gate_verdicts(secret: Option<Seq<char>>, authorization: Option<Seq<char>>)
    ensures
        gate_verdict(secret, authorization) is Ok <==> (secret matches Some(s) && authorization
            == Some("Bearer "@ + s)),
        secret is None ==> gate_verdict(secret, authorization) == Err::<(), AuthzError>(
            AuthzError::MissingSecret,
        ),
        (secret matches Some(s) && authorization != Some("Bearer "@ + s)) ==> gate_verdict(
            secret,
            authorization,
        ) == Err::<(), AuthzError>(AuthzError::InvalidToken),
{
}

/// Mathematical value of an optional string slice.
pub open spec fn text_view(text: Option<&str>) -> Option<Seq<char>> {
    match text {
        Some(text) => Some(text@),
        None => None,
    }
}

/// Decides whether a call may proceed, from the configured secret (`None`
/// if the process has none) and the call's `authorization` entry (`None` if
/// it has none). The entry must equal `"Bearer "` followed by the secret,
/// byte for byte.
pub fn check_auth(secret: Option<&str>, authorization: Option<&str>) -> (verdict: Result<
    (),
    AuthzError,
>)
    ensures
        verdict == gate_verdict(text_view(secret), text_view(authorization)),
{
    match secret {
        None => Err(AuthzError::MissingSecret),
        Some(secret) => {
            let expected = String::from_str("Bearer ").concat(secret);
            match authorization {
                Some(given) => if str_equal(given, expected.as_str()) {
                    Ok(())
                } else {
                    Err(AuthzError::InvalidToken)
                },
                None => Err(AuthzError::InvalidToken),
            }
        },
    }
}

impl AuthzError {
    /// The category and text that a refusal is reported with.
    pub open spec fn status_model(self) -> StatusView {
        match self {
            AuthzError::MissingSecret => StatusView {
                code: Code::Internal,
                message: "Server misconfiguration: missing auth token"@,
            },
            AuthzError::InvalidToken => StatusView {
                code: Code::Unauthenticated,
                message: "No valid auth token"@,
            },
        }
    }

    /// The status that the refusal is reported as.
    pub fn status(&self) -> (status: Status)
        ensures
            status@ == self.status_model(),
    {
        match self {
            AuthzError::MissingSecret => Status::new(
                Code::Internal,
                "Server misconfiguration: missing auth token",
            ),
            AuthzError::InvalidToken => Status::new(Code::Unauthenticated, "No valid auth token"),
        }
    }
}

/// The authorization gate with its secret, read once when the process starts and never
/// changed afterwards.
#[derive(Debug)]
pub struct AuthGate {
    secret: Option<String>,
}

impl AuthGate {
    /// The configured secret, if the process has one.
    pub closed spec fn secret(&self) -> Option<Seq<char>> {
        match self.secret {
            Some(secret) => Some(secret@),
            None => None,
        }
    }

    /// A gate for the given secret; `None` if the process has none.
    pub fn new(secret: Option<String>) -> (gate: AuthGate)
        ensures
            gate.secret() == match secret {
                Some(secret) => Some(secret@),
                None => None,
            },
    {
        AuthGate { secret }
    }

    /// Decides whether a call with the given `authorization` entry may
    /// proceed.
    pub fn authorize(&self, authorization: Option<&str>) -> (verdict: Result<(), AuthzError>)
        ensures
            verdict == gate_verdict(self.secret(), text_view(authorization)),
    {
        match &self.secret {
            Some(secret) => check_auth(Some(secret.as_str()), authorization),
            None => check_auth(None, authorization),
        }
    }
}

/// A message to be echoed.
#[derive(Debug)]
pub struct EchoRequest {
    pub message: String,
}

/// The echoed message.
#[derive(Debug)]
pub struct EchoResponse {
    pub message: String,
}

/// The echo operation, which exists to show the authorization gate at work.
#[derive(Default, Debug)]
pub struct EchoServer {}

impl EchoServer {
    /// Answers with the message it was sent.
    pub fn unary_echo(&self, request: EchoRequest) -> (response: EchoResponse)
        ensures
            response.message == request.message,
    {
        EchoResponse { message: request.message }
    }
}

} // verus!

//! Parsing of the addresses that requests are sent to.

use crate::auth::errors::{AuthError, AuthErrorView, AuthResult};
use vstd::prelude::*;

verus! {

/// What the URL parser makes of `input`: the text of the parsed address on
/// success, the parser's description of the fault otherwise.
pub uninterp spec fn url_parse(input: Seq<char>) -> Result<Seq<char>, Seq<char>>;

/// Mathematical value of a parser outcome held in strings.
pub open spec fn parsed_view(parsed: Result<String, String>) -> Result<Seq<char>, Seq<char>> {
    match parsed {
        Ok(address) => Ok(address@),
        Err(detail) => Err(detail@),
    }
}

/// Calls `url::Url::parse` on `input`. On success the result is the parsed
/// address written back as text (`String::from` on the `Url`); on failure it
/// is the text of the `ParseError`. Both depend on `input` alone, and the
/// contract only gives them the name [`url_parse`].
#[verifier::external_body]
pub(crate) fn parse_url(input: &str) -> (parsed: Result<String, String>)
    ensures
        parsed_view(parsed) == url_parse(input@),
{
    match ::url::Url::parse(input) {
        Ok(address) => Ok(address.into()),
        Err(error) => Err(error.to_string()),
    }
}

/// The address to send a request to, given what the parser made of it: the
/// parsed text, or the failure that a rejected address is reported as.
pub open spec fn target_of(parsed: Result<Seq<char>, Seq<char>>) -> Result<
    Seq<char>,
    AuthErrorView,
> {
    match parsed {
        Ok(address) => Ok(address),
        Err(detail) => Err(AuthErrorView::URLParseFailed(detail)),
    }
}

/// Mathematical value of an address or the failure in its place.
pub open spec fn target_view(target: AuthResult<String>) -> Result<Seq<char>, AuthErrorView> {
    match target {
        Ok(address) => Ok(address@),
        Err(error) => Err(error@),
    }
}

/// Turns a parser outcome into the address to use, or into
/// `URLParseFailed` with the parser's description.
pub fn target_from(parsed: Result<String, String>) -> (target: AuthResult<String>)
    ensures
        target_view(target) == target_of(parsed_view(parsed)),
{
    match parsed {
        Ok(address) => Ok(address),
        Err(detail) => Err(AuthError::URLParseFailed(detail)),
    }
}

/// Parses `input` as an absolute URL and returns its normalised text, or
/// `URLParseFailed` if the parser rejects it.
pub fn parse_target(input: &str) -> (target: AuthResult<String>)
    ensures
        target_view(target) == target_of(url_parse(input@)),
{
    target_from(parse_url(input))
}

} // verus!

//! Addresses and names fixed by the i-Ma'luum portal. They are dictated by the
//! portal and must not vary.

use vstd::prelude::*;

verus! {

/// i-Ma'luum home page, fetched last to collect the authentication cookie.
pub const IMALUUM_PAGE: &'static str = "https://imaluum.iium.edu.my/";

/// CAS login page, fetched first to open the session.
pub const IMALUUM_CAS_PAGE: &'static str =
    "https://cas.iium.edu.my:8448/cas/login?service=https%3a%2f%2fimaluum.iium.edu.my%2fhome";

/// CAS endpoint that the login form is submitted to.
pub const IMALUUM_LOGIN_PAGE: &'static str =
    "https://cas.iium.edu.my:8448/cas/login?service=https%3a%2f%2fimaluum.iium.edu.my%2fhome?service=https%3a%2f%2fimaluum.iium.edu.my%2fhome";

/// Scheme and host of the CAS server, sent as the `Origin` of the submission.
pub const CAS_ROOT: &'static str = "https://cas.iium.edu.my:8448";

/// Name of the cookie that carries the authentication token.
pub const AUTH_COOKIE_NAME: &'static str = "MOD_AUTH_CAS";

/// Default timeout for HTTP requests, in seconds.
pub const REQUEST_TIMEOUT_SECS: u64 = 10;

} // verus!

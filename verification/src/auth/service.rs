//! The decisions of the CAS login handshake: the form that is submitted, the
//! inspection of the portal's answer and the search for the authentication
//! cookie. The requests themselves are sent by the caller.

use crate::auth::constants::AUTH_COOKIE_NAME;
use crate::auth::errors::{AuthError, AuthErrorView, AuthResult};
use crate::auth::flow::{bootstrap_request, initial_flow, LoginAction, LoginActionView, LoginFlow};
use crate::text::{occurs_in, str_contains, str_equal};
use vstd::prelude::*;
use vstd::string::*;

verus! {

/// Text whose presence in the portal's answer to a submission reports a
/// rejected login.
pub const MARKER_LOGIN_FAILED: &'static str = "Login failed";

/// Second text of the same meaning.
pub const MARKER_INVALID_CREDENTIALS: &'static str = "Invalid credentials";

/// The fields of the CAS login form for the credentials `username` and
/// `password`: five keys, of which only the credentials vary.
pub open spec fn form_fields(username: Seq<char>, password: Seq<char>) -> Map<
    Seq<char>,
    Seq<char>,
> {
    map![
        "username"@ => username,
        "password"@ => password,
        "execution"@ => "e1s1"@,
        "_eventId"@ => "submit"@,
        "geolocation"@ => Seq::<char>::empty(),
    ]
}

/// The same fields in the order in which they are written into the request.
pub open spec fn form_entries(username: Seq<char>, password: Seq<char>) -> Seq<
    (Seq<char>, Seq<char>),
> {
    seq![
        ("username"@, username),
        ("password"@, password),
        ("execution"@, "e1s1"@),
        ("_eventId"@, "submit"@),
        ("geolocation"@, Seq::<char>::empty()),
    ]
}

/// The names of the form fields.
pub open spec fn form_keys() -> Set<Seq<char>> {
    set!["username"@, "password"@, "execution"@, "_eventId"@, "geolocation"@]
}

/// The five field names are pairwise different.
pub proof fn lemma_form_keys_distinct()
    ensures
        "username"@ != "password"@,
        "username"@ != "execution"@,
        "username"@ != "_eventId"@,
        "username"@ != "geolocation"@,
        "password"@ != "execution"@,
        "password"@ != "_eventId"@,
        "password"@ != "geolocation"@,
        "execution"@ != "_eventId"@,
        "execution"@ != "geolocation"@,
        "_eventId"@ != "geolocation"@,
{
    reveal_strlit("username");
    reveal_strlit("password");
    reveal_strlit("execution");
    reveal_strlit("_eventId");
    reveal_strlit("geolocation");
    assert("username"@[0] == 'u');
    assert("password"@[0] == 'p');
    assert("execution"@[0] == 'e');
    assert("_eventId"@[0] == '_');
    assert("geolocation"@[0] == 'g');
}

/// The form has exactly the five keys, the credentials under `username` and
/// `password`, and the portal's constants under the other three, whatever the
/// credentials are.
pub proof fn lemma_form_shape(username: Seq<char>, password: Seq<char>)
    ensures
        form_fields(username, password).dom() == form_keys(),
        form_keys().finite(),
        form_keys().len() == 5,
        form_fields(username, password)["username"@] == username,
        form_fields(username, password)["password"@] == password,
        form_fields(username, password)["execution"@] == "e1s1"@,
        form_fields(username, password)["_eventId"@] == "submit"@,
        form_fields(username, password)["geolocation"@] == Seq::<char>::empty(),
{
    lemma_form_keys_distinct();
    assert(form_fields(username, password).dom() =~= form_keys());
    let s0 = Set::<Seq<char>>::empty();
    let s1 = s0.insert("username"@);
    let s2 = s1.insert("password"@);
    let s3 = s2.insert("execution"@);
    let s4 = s3.insert("_eventId"@);
    let s5 = s4.insert("geolocation"@);
    assert(form_keys() =~= s5);
    assert(s1.len() == 1);
    assert(s2.len() == 2);
    assert(s3.len() == 3);
    assert(s4.len() == 4);
    assert(s5.len() == 5);
}

/// The CAS login form of one attempt. Only the credentials are stored: the
/// other fields are the portal's constants.
#[derive(Debug)]
pub struct FormPayload {
    username: String,
    password: String,
}

impl View for FormPayload {
    type V = Map<Seq<char>, Seq<char>>;

    closed spec fn view(&self) -> Map<Seq<char>, Seq<char>> {
        form_fields(self.username@, self.password@)
    }
}

impl FormPayload {
    /// Every form has the fixed shape: it is the form of the credentials
    /// found under `username` and `password`, so it has the five keys and
    /// no other, and the portal's constants under the other three.
    pub proof fn lemma_fixed_shape(&self)
        ensures
            self@ == form_fields(self@["username"@], self@["password"@]),
            self@.dom() == form_keys(),
    {
        lemma_form_shape(self.username@, self.password@);
    }

    /// The value of the field `key`, if the form has such a field.
    pub fn get(&self, key: &str) -> (value: Option<&str>)
        ensures
            value is Some <==> self@.dom().contains(key@),
            value matches Some(v) ==> v@ == self@[key@],
    {
        proof {
            lemma_form_keys_distinct();
            reveal_strlit("");
        }
        if str_equal(key, "username") {
            Some(self.username.as_str())
        } else if str_equal(key, "password") {
            Some(self.password.as_str())
        } else if str_equal(key, "execution") {
            Some("e1s1")
        } else if str_equal(key, "_eventId") {
            Some("submit")
        } else if str_equal(key, "geolocation") {
            assert(""@ =~= Seq::<char>::empty());
            Some("")
        } else {
            None
        }
    }

    /// The fields as name and value pairs, in the order in which they are
    /// written into the request.
    pub fn entries(&self) -> (pairs: Vec<(String, String)>)
        ensures
            pairs.deep_view() == form_entries(self@["username"@], self@["password"@]),
    {
        let mut pairs: Vec<(String, String)> = Vec::new();
        pairs.push((String::from_str("username"), self.username.clone()));
        pairs.push((String::from_str("password"), self.password.clone()));
        pairs.push((String::from_str("execution"), String::from_str("e1s1")));
        pairs.push((String::from_str("_eventId"), String::from_str("submit")));
        pairs.push((String::from_str("geolocation"), String::new()));
        proof {
            lemma_form_shape(self.username@, self.password@);
        }
        assert(pairs.deep_view() =~= form_entries(self.username@, self.password@));
        pairs
    }
}

/// An entry of a response's `Set-Cookie` list.
#[derive(Debug)]
pub struct Cookie {
    pub name: String,
    pub value: String,
}

/// Mathematical value of a [`Cookie`].
pub struct CookieView {
    pub name: Seq<char>,
    pub value: Seq<char>,
}

impl View for Cookie {
    type V = CookieView;

    open spec fn view(&self) -> CookieView {
        CookieView { name: self.name@, value: self.value@ }
    }
}

/// The cookies of a list, each by its mathematical value.
pub open spec fn cookies_view(cookies: Seq<Cookie>) -> Seq<CookieView> {
    cookies.map_values(|c: Cookie| c@)
}

/// The value of the first cookie named `name`, if there is one.
pub open spec fn cookie_value(cookies: Seq<CookieView>, name: Seq<char>) -> Option<Seq<char>>
    decreases cookies.len(),
{
    if cookies.len() == 0 {
        None
    } else if cookies[0].name == name {
        Some(cookies[0].value)
    } else {
        cookie_value(cookies.drop_first(), name)
    }
}

/// `cookie_value` finds the earliest cookie of that name: it is `Some(v)`
/// exactly when some position holds the name with value `v` and no earlier
/// position holds the name.
pub proof fn lemma_cookie_value_is_first(cookies: Seq<CookieView>, name: Seq<char>)
    ensures
        cookie_value(cookies, name) is None <==> forall|i: int|
            0 <= i < cookies.len() ==> (#[trigger] cookies[i]).name != name,
        cookie_value(cookies, name) matches Some(v) ==> exists|i: int|
            0 <= i < cookies.len() && (#[trigger] cookies[i]).name == name && cookies[i].value == v
                && forall|j: int| 0 <= j < i ==> (#[trigger] cookies[j]).name != name,
    decreases cookies.len(),
{
    if cookies.len() == 0 {
    } else if cookies[0].name == name {
        assert(cookies[0].name == name && cookies[0].value == cookie_value(cookies, name)->0);
    } else {
        let rest = cookies.drop_first();
        lemma_cookie_value_is_first(rest, name);
        assert(forall|i: int| 0 <= i < rest.len() ==> rest[i] == cookies[i + 1]);
        if cookie_value(rest, name) is None {
            assert forall|i: int| 0 <= i < cookies.len() implies (#[trigger] cookies[i]).name
                != name by {
                if i > 0 {
                    assert(rest[i - 1].name != name);
                }
            }
        } else {
            let v = cookie_value(rest, name)->0;
            let i = choose|i: int|
                0 <= i < rest.len() && (#[trigger] rest[i]).name == name && rest[i].value == v
                    && forall|j: int| 0 <= j < i ==> (#[trigger] rest[j]).name != name;
            assert forall|j: int| 0 <= j < i + 1 implies (#[trigger] cookies[j]).name != name by {
                if j > 0 {
                    assert(rest[j - 1].name != name);
                }
            }
            assert(cookies[i + 1].name == name && cookies[i + 1].value == v);
        }
    }
}

/// Whether `status` is a success (2xx) or a redirection (3xx).
pub open spec fn status_accepted(status: u16) -> bool {
    200 <= status < 400
}

/// Whether the body of an answer carries one of the failure markers.
pub open spec fn has_failure_marker(body: Seq<char>) -> bool {
    occurs_in(MARKER_LOGIN_FAILED@, body) || occurs_in(MARKER_INVALID_CREDENTIALS@, body)
}

/// Whether the portal's answer to a submission lets the attempt go on: no
/// failure marker in the body, and a status that is a success or a
/// redirection. The status alone decides nothing.
pub open spec fn submission_accepted(status: u16, body: Seq<char>) -> bool {
    !has_failure_marker(body) && status_accepted(status)
}

/// A failure marker in the body is a rejection under every status, the
/// successful ones included.
pub proof fn lemma_marker_overrides_status(status: u16, body: Seq<char>)
    requires
        occurs_in(MARKER_LOGIN_FAILED@, body) || occurs_in(MARKER_INVALID_CREDENTIALS@, body),
    ensures
        !submission_accepted(status, body),
{
}

/// Handles one login attempt after another; holds no state between them.
#[derive(Debug)]
pub struct AuthService;

impl AuthService {
    /// Creates the service. This never fails.
    pub fn new() -> (service: AuthResult<Self>)
        ensures
            service is Ok,
    {
        Ok(AuthService)
    }

    /// Begins a login attempt for the given credentials, which the caller
    /// has checked to be non-empty, and asks for its first request. The
    /// attempt goes on with [`LoginFlow::step`]; each attempt is to be run
    /// with a session client of its own.
    pub fn login(&self, username: String, password: String) -> (start: (LoginFlow, LoginAction))
        requires
            username@.len() > 0,
            password@.len() > 0,
        ensures
            start.0@ == initial_flow(username@, password@),
            start.1@ == LoginActionView::Send(bootstrap_request()),
    {
        LoginFlow::begin(username, password)
    }

    /// The login form for `username` and `password`.
    pub fn create_form_data(&self, username: &str, password: &str) -> (form: FormPayload)
        ensures
            form@ == form_fields(username@, password@),
    {
        FormPayload { username: String::from_str(username), password: String::from_str(password) }
    }

    /// Inspects the portal's answer to the submission, given its status and
    /// its whole body. A failure marker in the body is a rejection whatever
    /// the status says; so is a status that is neither success nor redirect.
    pub fn verify_submission(&self, status: u16, body: &str) -> (verdict: AuthResult<()>)
        ensures
            verdict is Ok <==> submission_accepted(status, body@),
            verdict matches Err(e) ==> e@ == AuthErrorView::LoginFailed,
    {
        if str_contains(body, MARKER_LOGIN_FAILED) || str_contains(
            body,
            MARKER_INVALID_CREDENTIALS,
        ) {
            return Err(AuthError::LoginFailed);
        }
        if !(200 <= status && status < 400) {
            return Err(AuthError::LoginFailed);
        }
        Ok(())
    }

    /// Looks for the authentication cookie among the `Set-Cookie` entries of
    /// the home page's response, and returns the value of the first one.
    pub fn extract_auth_token(&self, cookies: &Vec<Cookie>) -> (token: AuthResult<String>)
        ensures
            match cookie_value(cookies_view(cookies@), AUTH_COOKIE_NAME@) {
                Some(value) => token matches Ok(t) && t@ == value,
                None => token matches Err(e) && e@ == AuthErrorView::AuthCookieNotFound,
            },
    {
        let ghost all = cookies_view(cookies@);
        let mut i: usize = 0;
        assert(all.subrange(0, all.len() as int) =~= all);
        while i < cookies.len()
            invariant
                i <= cookies.len(),
                all == cookies_view(cookies@),
                cookie_value(all, AUTH_COOKIE_NAME@) == cookie_value(
                    all.subrange(i as int, all.len() as int),
                    AUTH_COOKIE_NAME@,
                ),
            decreases cookies.len() - i,
        {
            let ghost rest = all.subrange(i as int, all.len() as int);
            assert(rest[0] == cookies@[i as int]@);
            assert(rest.drop_first() =~= all.subrange(i + 1, all.len() as int));
            if str_equal(cookies[i].name.as_str(), AUTH_COOKIE_NAME) {
                return Ok(cookies[i].value.clone());
            }
            i += 1;
        }
        assert(all.subrange(i as int, all.len() as int).len() == 0);
        Err(AuthError::AuthCookieNotFound)
    }
}

impl Default for AuthService {
    fn default() -> (service: Self) {
        AuthService
    }
}

} // verus!

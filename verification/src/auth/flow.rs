//! The login handshake as a state machine.
//!
//! A [`LoginFlow`] is the state of one attempt. The caller sends the request
//! that the flow asks for, reads the response to its end, and hands what came
//! back to [`LoginFlow::step`], which answers with the next request or with
//! the end of the attempt. The flow is linear: bootstrap, submission,
//! extraction. The inspection of the submission's answer happens on the way
//! from submission to extraction and needs no request of its own.

use crate::auth::constants::{
    AUTH_COOKIE_NAME, CAS_ROOT, IMALUUM_CAS_PAGE, IMALUUM_LOGIN_PAGE, IMALUUM_PAGE,
};
use crate::auth::errors::{AuthError, AuthErrorView, AuthResult, Operation};
use crate::auth::service::{
    cookie_value, cookies_view, form_fields, submission_accepted, AuthService, Cookie, CookieView,
    FormPayload,
};
use crate::http::address::{parse_url, parsed_view, target_from, target_of, url_parse};
use vstd::prelude::*;
use vstd::string::*;

verus! {

/// What the flow reads of a response whose body has been read to its end.
#[derive(Debug)]
pub struct HttpReply {
    /// The HTTP status code.
    pub status: u16,
    /// The whole body, as text.
    pub body: String,
    /// The `Set-Cookie` entries of this response, in their order.
    pub cookies: Vec<Cookie>,
}

/// Mathematical value of an [`HttpReply`].
pub struct HttpReplyView {
    pub status: u16,
    pub body: Seq<char>,
    pub cookies: Seq<CookieView>,
}

impl View for HttpReply {
    type V = HttpReplyView;

    open spec fn view(&self) -> HttpReplyView {
        HttpReplyView {
            status: self.status,
            body: self.body@,
            cookies: cookies_view(self.cookies@),
        }
    }
}

/// What happened to the request that the flow asked for.
#[derive(Debug)]
pub enum LoginEvent {
    /// A response arrived and its body was read to the end.
    Reply(HttpReply),
    /// The request failed below HTTP; holds the transport's description.
    TransportFailed(String),
}

/// Mathematical value of a [`LoginEvent`].
pub enum LoginEventView {
    Reply(HttpReplyView),
    TransportFailed(Seq<char>),
}

impl View for LoginEvent {
    type V = LoginEventView;

    open spec fn view(&self) -> LoginEventView {
        match self {
            LoginEvent::Reply(reply) => LoginEventView::Reply(reply@),
            LoginEvent::TransportFailed(detail) => LoginEventView::TransportFailed(detail@),
        }
    }
}

/// The method of a request.
#[derive(Clone, Copy, Debug, PartialEq, Eq, Structural)]
pub enum Method {
    Get,
    Post,
}

/// A request for the caller to send with the attempt's own session client.
/// The client adds its default headers and the session's cookies.
#[derive(Debug)]
pub struct HttpRequest {
    pub method: Method,
    pub url: String,
    /// Headers of this request beyond the client's defaults.
    pub headers: Vec<(String, String)>,
    /// The form to send as the body, URL-encoded.
    pub form: Option<FormPayload>,
}

/// Mathematical value of an [`HttpRequest`].
pub struct HttpRequestView {
    pub method: Method,
    pub url: Seq<char>,
    pub headers: Seq<(Seq<char>, Seq<char>)>,
    pub form: Option<Map<Seq<char>, Seq<char>>>,
}

impl View for HttpRequest {
    type V = HttpRequestView;

    open spec fn view(&self) -> HttpRequestView {
        HttpRequestView {
            method: self.method,
            url: self.url@,
            headers: self.headers.deep_view(),
            form: match self.form {
                Some(form) => Some(form@),
                None => None,
            },
        }
    }
}

/// What the caller does next.
#[derive(Debug)]
pub enum LoginAction {
    /// Send this request and report what happens to it.
    Send(HttpRequest),
    /// The attempt is over; its result is in the flow.
    Finish,
}

/// Mathematical value of a [`LoginAction`].
pub enum LoginActionView {
    Send(HttpRequestView),
    Finish,
}

impl View for LoginAction {
    type V = LoginActionView;

    open spec fn view(&self) -> LoginActionView {
        match self {
            LoginAction::Send(request) => LoginActionView::Send(request@),
            LoginAction::Finish => LoginActionView::Finish,
        }
    }
}

/// Where an attempt stands.
#[derive(Debug)]
pub enum LoginState {
    /// The bootstrap `GET` to the CAS login page is under way.
    Init,
    /// The `POST` of the credentials is under way.
    Submitting,
    /// The submission was accepted; the `GET` to the home page is under way.
    Extracting,
    /// The attempt succeeded; holds the token.
    Done(String),
    /// The attempt failed; holds the reason.
    Failed(AuthError),
}

/// Mathematical value of a [`LoginState`].
pub enum LoginStateView {
    Init,
    Submitting,
    Extracting,
    Done(Seq<char>),
    Failed(AuthErrorView),
}

impl View for LoginState {
    type V = LoginStateView;

    open spec fn view(&self) -> LoginStateView {
        match self {
            LoginState::Init => LoginStateView::Init,
            LoginState::Submitting => LoginStateView::Submitting,
            LoginState::Extracting => LoginStateView::Extracting,
            LoginState::Done(token) => LoginStateView::Done(token@),
            LoginState::Failed(error) => LoginStateView::Failed(error@),
        }
    }
}

impl LoginStateView {
    /// No event changes a terminal state.
    pub open spec fn is_terminal(self) -> bool {
        self is Done || self is Failed
    }

    /// How far along the handshake a state lies.
    pub open spec fn progress(self) -> nat {
        match self {
            LoginStateView::Init => 0,
            LoginStateView::Submitting => 1,
            LoginStateView::Extracting => 2,
            LoginStateView::Done(_) => 3,
            LoginStateView::Failed(_) => 3,
        }
    }
}

/// One login attempt: the credentials and where the handshake stands.
#[derive(Debug)]
pub struct LoginFlow {
    username: String,
    password: String,
    state: LoginState,
}

/// Mathematical value of a [`LoginFlow`].
pub struct LoginFlowView {
    pub username: Seq<char>,
    pub password: Seq<char>,
    pub state: LoginStateView,
}

impl View for LoginFlow {
    type V = LoginFlowView;

    closed spec fn view(&self) -> LoginFlowView {
        LoginFlowView { username: self.username@, password: self.password@, state: self.state@ }
    }
}

/// The bootstrap request: a plain `GET` to the CAS login page.
pub open spec fn bootstrap_request() -> HttpRequestView {
    HttpRequestView {
        method: Method::Get,
        url: IMALUUM_CAS_PAGE@,
        headers: Seq::empty(),
        form: None,
    }
}

/// The headers of the submission beyond the client's defaults.
pub open spec fn submit_headers() -> Seq<(Seq<char>, Seq<char>)> {
    seq![
        ("Content-Type"@, "application/x-www-form-urlencoded"@),
        ("Referer"@, IMALUUM_CAS_PAGE@),
        ("Origin"@, CAS_ROOT@),
    ]
}

/// The submission: a `POST` of the login form to the CAS submission endpoint.
pub open spec fn submit_request(username: Seq<char>, password: Seq<char>) -> HttpRequestView {
    HttpRequestView {
        method: Method::Post,
        url: IMALUUM_LOGIN_PAGE@,
        headers: submit_headers(),
        form: Some(form_fields(username, password)),
    }
}

/// The extraction request: a plain `GET` to the parsed home page address.
pub open spec fn extract_request(address: Seq<char>) -> HttpRequestView {
    HttpRequestView { method: Method::Get, url: address, headers: Seq::empty(), form: None }
}

/// The state of an attempt that has just begun.
pub open spec fn initial_flow(username: Seq<char>, password: Seq<char>) -> LoginFlowView {
    LoginFlowView { username, password, state: LoginStateView::Init }
}

/// The attempt `flow` ended in failure for the reason `error`.
pub open spec fn failed(flow: LoginFlowView, error: AuthErrorView) -> (
    LoginFlowView,
    LoginActionView,
) {
    (LoginFlowView { state: LoginStateView::Failed(error), ..flow }, LoginActionView::Finish)
}

/// The verifying step, taken as soon as the submission has been answered
/// with `status` and `body`. If the body holds no failure marker and the
/// status is a success or a redirection, the attempt goes on to extraction
/// at the parsed home page address; if the address is rejected, the attempt
/// fails with that. In every other case the login has failed.
pub open spec fn verifying_model(
    flow: LoginFlowView,
    status: u16,
    body: Seq<char>,
    home: Result<Seq<char>, Seq<char>>,
) -> (LoginFlowView, LoginActionView) {
    if submission_accepted(status, body) {
        match target_of(home) {
            Ok(address) => (
                LoginFlowView { state: LoginStateView::Extracting, ..flow },
                LoginActionView::Send(extract_request(address)),
            ),
            Err(error) => failed(flow, error),
        }
    } else {
        failed(flow, AuthErrorView::LoginFailed)
    }
}

/// The transition of the handshake: the state after `event` and what the
/// caller does next. `home` is what the URL parser makes of the home page
/// address; it matters only when a submission has just been accepted.
pub open spec fn advance_model(
    flow: LoginFlowView,
    event: LoginEventView,
    home: Result<Seq<char>, Seq<char>>,
) -> (LoginFlowView, LoginActionView) {
    match flow.state {
        LoginStateView::Init => match event {
            LoginEventView::Reply(_) => (
                LoginFlowView { state: LoginStateView::Submitting, ..flow },
                LoginActionView::Send(submit_request(flow.username, flow.password)),
            ),
            LoginEventView::TransportFailed(detail) => failed(
                flow,
                AuthErrorView::RequestFailed(Operation::Bootstrap, detail),
            ),
        },
        LoginStateView::Submitting => match event {
            LoginEventView::Reply(reply) => verifying_model(flow, reply.status, reply.body, home),
            LoginEventView::TransportFailed(detail) => failed(
                flow,
                AuthErrorView::RequestFailed(Operation::Submit, detail),
            ),
        },
        LoginStateView::Extracting => match event {
            LoginEventView::Reply(reply) => match cookie_value(reply.cookies, AUTH_COOKIE_NAME@) {
                Some(token) => (
                    LoginFlowView { state: LoginStateView::Done(token), ..flow },
                    LoginActionView::Finish,
                ),
                None => failed(flow, AuthErrorView::AuthCookieNotFound),
            },
            LoginEventView::TransportFailed(detail) => failed(
                flow,
                AuthErrorView::RequestFailed(Operation::Extract, detail),
            ),
        },
        LoginStateView::Done(_) => (flow, LoginActionView::Finish),
        LoginStateView::Failed(_) => (flow, LoginActionView::Finish),
    }
}

/// The result of an attempt, once it is over: the token with the
/// credentials it was obtained for, or the reason of the failure.
pub open spec fn outcome_model(flow: LoginFlowView) -> Option<
    Result<(Seq<char>, Seq<char>, Seq<char>), AuthErrorView>,
> {
    match flow.state {
        LoginStateView::Done(token) => Some(Ok((token, flow.username, flow.password))),
        LoginStateView::Failed(error) => Some(Err(error)),
        _ => None,
    }
}

/// Mathematical value of an attempt's result.
pub open spec fn outcome_view(outcome: Option<AuthResult<(String, String, String)>>) -> Option<
    Result<(Seq<char>, Seq<char>, Seq<char>), AuthErrorView>,
> {
    match outcome {
        Some(Ok((token, username, password))) => Some(Ok((token@, username@, password@))),
        Some(Err(error)) => Some(Err(error@)),
        None => None,
    }
}

/// The state after a whole sequence of events, one transition for each.
pub open spec fn run_model(
    flow: LoginFlowView,
    events: Seq<LoginEventView>,
    home: Result<Seq<char>, Seq<char>>,
) -> LoginFlowView
    decreases events.len(),
{
    if events.len() == 0 {
        flow
    } else {
        run_model(advance_model(flow, events[0], home).0, events.drop_first(), home)
    }
}

/// What the caller was told to do after each event of a sequence.
pub open spec fn actions_model(
    flow: LoginFlowView,
    events: Seq<LoginEventView>,
    home: Result<Seq<char>, Seq<char>>,
) -> Seq<LoginActionView>
    decreases events.len(),
{
    if events.len() == 0 {
        Seq::empty()
    } else {
        let next = advance_model(flow, events[0], home);
        seq![next.1] + actions_model(next.0, events.drop_first(), home)
    }
}

/// The requests among a sequence of actions, in their order.
pub open spec fn sent_model(actions: Seq<LoginActionView>) -> Seq<HttpRequestView>
    decreases actions.len(),
{
    if actions.len() == 0 {
        Seq::empty()
    } else {
        match actions[0] {
            LoginActionView::Send(request) => seq![request] + sent_model(actions.drop_first()),
            LoginActionView::Finish => sent_model(actions.drop_first()),
        }
    }
}

/// All the requests of an attempt for `username` and `password` to which
/// `events` are reported one after the other: the bootstrap request, with
/// which the attempt begins, and then each request that it asked for.
pub open spec fn requests_model(
    username: Seq<char>,
    password: Seq<char>,
    events: Seq<LoginEventView>,
    home: Result<Seq<char>, Seq<char>>,
) -> Seq<HttpRequestView> {
    seq![bootstrap_request()] + sent_model(
        actions_model(initial_flow(username, password), events, home),
    )
}

/// The states of two attempts after a schedule of events, each event
/// marked with the attempt that it belongs to (`true` for the first).
pub open spec fn run_pair_model(
    first: LoginFlowView,
    second: LoginFlowView,
    schedule: Seq<(bool, LoginEventView)>,
    home: Result<Seq<char>, Seq<char>>,
) -> (LoginFlowView, LoginFlowView)
    decreases schedule.len(),
{
    if schedule.len() == 0 {
        (first, second)
    } else if schedule[0].0 {
        run_pair_model(
            advance_model(first, schedule[0].1, home).0,
            second,
            schedule.drop_first(),
            home,
        )
    } else {
        run_pair_model(
            first,
            advance_model(second, schedule[0].1, home).0,
            schedule.drop_first(),
            home,
        )
    }
}

/// The events of a schedule that belong to one of the two attempts, in
/// their order.
pub open spec fn events_of(schedule: Seq<(bool, LoginEventView)>, of_first: bool) -> Seq<
    LoginEventView,
>
    decreases schedule.len(),
{
    if schedule.len() == 0 {
        Seq::empty()
    } else if schedule[0].0 == of_first {
        seq![schedule[0].1] + events_of(schedule.drop_first(), of_first)
    } else {
        events_of(schedule.drop_first(), of_first)
    }
}

fn submit_request_for(form: FormPayload) -> (request: HttpRequest)
    ensures
        request@ == (HttpRequestView {
            method: Method::Post,
            url: IMALUUM_LOGIN_PAGE@,
            headers: submit_headers(),
            form: Some(form@),
        }),
{
    let mut headers: Vec<(String, String)> = Vec::new();
    headers.push(
        (String::from_str("Content-Type"), String::from_str("application/x-www-form-urlencoded")),
    );
    headers.push((String::from_str("Referer"), String::from_str(IMALUUM_CAS_PAGE)));
    headers.push((String::from_str("Origin"), String::from_str(CAS_ROOT)));
    assert(headers.deep_view() =~= submit_headers());
    HttpRequest {
        method: Method::Post,
        url: String::from_str(IMALUUM_LOGIN_PAGE),
        headers,
        form: Some(form),
    }
}

fn get_request(address: String) -> (request: HttpRequest)
    ensures
        request@ == (HttpRequestView {
            method: Method::Get,
            url: address@,
            headers: Seq::empty(),
            form: None,
        }),
{
    let headers: Vec<(String, String)> = Vec::new();
    assert(headers.deep_view() =~= Seq::<(Seq<char>, Seq<char>)>::empty());
    HttpRequest { method: Method::Get, url: address, headers, form: None }
}

impl LoginFlow {
    /// Begins an attempt for the given credentials and asks for the
    /// bootstrap request.
    pub fn begin(username: String, password: String) -> (start: (LoginFlow, LoginAction))
        requires
            username@.len() > 0,
            password@.len() > 0,
        ensures
            start.0@ == initial_flow(username@, password@),
            start.1@ == LoginActionView::Send(bootstrap_request()),
    {
        let flow = LoginFlow { username, password, state: LoginState::Init };
        let request = get_request(String::from_str(IMALUUM_CAS_PAGE));
        (flow, LoginAction::Send(request))
    }

    /// Where the attempt stands.
    pub fn state(&self) -> (state: &LoginState)
        ensures
            state@ == self@.state,
    {
        &self.state
    }

    /// Whether the attempt is over.
    pub fn is_finished(&self) -> (finished: bool)
        ensures
            finished == self@.state.is_terminal(),
    {
        match self.state {
            LoginState::Done(_) => true,
            LoginState::Failed(_) => true,
            _ => false,
        }
    }

    fn fail(self, error: AuthError) -> (next: (LoginFlow, LoginAction))
        ensures
            (next.0@, next.1@) == failed(self@, error@),
    {
        (
            LoginFlow {
                username: self.username,
                password: self.password,
                state: LoginState::Failed(error),
            },
            LoginAction::Finish,
        )
    }

    /// One transition of the handshake, given what the URL parser makes of
    /// the home page address.
    pub fn advance(self, event: LoginEvent, home: Result<String, String>) -> (next: (
        LoginFlow,
        LoginAction,
    ))
        ensures
            (next.0@, next.1@) == advance_model(self@, event@, parsed_view(home)),
    {
        let service = AuthService;
        match self.state {
            LoginState::Init => match event {
                LoginEvent::Reply(_) => {
                    let form = service.create_form_data(
                        self.username.as_str(),
                        self.password.as_str(),
                    );
                    let request = submit_request_for(form);
                    (
                        LoginFlow {
                            username: self.username,
                            password: self.password,
                            state: LoginState::Submitting,
                        },
                        LoginAction::Send(request),
                    )
                },
                LoginEvent::TransportFailed(detail) => {
                    let flow = LoginFlow {
                        username: self.username,
                        password: self.password,
                        state: LoginState::Init,
                    };
                    flow.fail(AuthError::RequestFailed(Operation::Bootstrap, detail))
                },
            },
            LoginState::Submitting => {
                let flow = LoginFlow {
                    username: self.username,
                    password: self.password,
                    state: LoginState::Submitting,
                };
                match event {
                    LoginEvent::Reply(reply) => {
                        match service.verify_submission(reply.status, reply.body.as_str()) {
                            Ok(()) => match target_from(home) {
                                Ok(address) => (
                                    LoginFlow {
                                        username: flow.username,
                                        password: flow.password,
                                        state: LoginState::Extracting,
                                    },
                                    LoginAction::Send(get_request(address)),
                                ),
                                Err(error) => flow.fail(error),
                            },
                            Err(error) => flow.fail(error),
                        }
                    },
                    LoginEvent::TransportFailed(detail) => flow.fail(
                        AuthError::RequestFailed(Operation::Submit, detail),
                    ),
                }
            },
            LoginState::Extracting => {
                let flow = LoginFlow {
                    username: self.username,
                    password: self.password,
                    state: LoginState::Extracting,
                };
                match event {
                    LoginEvent::Reply(reply) => match service.extract_auth_token(&reply.cookies) {
                        Ok(token) => (
                            LoginFlow {
                                username: flow.username,
                                password: flow.password,
                                state: LoginState::Done(token),
                            },
                            LoginAction::Finish,
                        ),
                        Err(error) => flow.fail(error),
                    },
                    LoginEvent::TransportFailed(detail) => flow.fail(
                        AuthError::RequestFailed(Operation::Extract, detail),
                    ),
                }
            },
            LoginState::Done(token) => (
                LoginFlow {
                    username: self.username,
                    password: self.password,
                    state: LoginState::Done(token),
                },
                LoginAction::Finish,
            ),
            LoginState::Failed(error) => (
                LoginFlow {
                    username: self.username,
                    password: self.password,
                    state: LoginState::Failed(error),
                },
                LoginAction::Finish,
            ),
        }
    }

    /// One transition of the handshake. The home page address is parsed
    /// when a submission has been answered, and at no other time.
    pub fn step(self, event: LoginEvent) -> (next: (LoginFlow, LoginAction))
        ensures
            (next.0@, next.1@) == advance_model(self@, event@, url_parse(IMALUUM_PAGE@)),
    {
        let answered = match (&self.state, &event) {
            (LoginState::Submitting, LoginEvent::Reply(_)) => true,
            _ => false,
        };
        let home = if answered {
            parse_url(IMALUUM_PAGE)
        } else {
            Err(String::new())
        };
        self.advance(event, home)
    }

    /// The result of the attempt, if it is over: the token and the
    /// credentials on success, the reason on failure.
    pub fn into_result(self) -> (outcome: Option<AuthResult<(String, String, String)>>)
        ensures
            outcome_view(outcome) == outcome_model(self@),
    {
        match self.state {
            LoginState::Done(token) => Some(Ok((token, self.username, self.password))),
            LoginState::Failed(error) => Some(Err(error)),
            _ => None,
        }
    }
}

/// A terminal state is final: whatever is reported to a finished attempt,
/// it stays as it is and asks for nothing more. No failure is retried and
/// no success is revised.
pub proof fn lemma_terminal_is_final(
    flow: LoginFlowView,
    event: LoginEventView,
    home: Result<Seq<char>, Seq<char>>,
)
    requires
        flow.state.is_terminal(),
    ensures
        advance_model(flow, event, home) == (flow, LoginActionView::Finish),
{
}

/// The flow is linear: every event moves an unfinished attempt forward, by
/// one step or straight to its end, and never back.
pub proof fn lemma_flow_is_linear(
    flow: LoginFlowView,
    event: LoginEventView,
    home: Result<Seq<char>, Seq<char>>,
)
    requires
        !flow.state.is_terminal(),
    ensures
        advance_model(flow, event, home).0.state.progress() == flow.state.progress() + 1
            || advance_model(flow, event, home).0.state is Failed,
        advance_model(flow, event, home).0.state.progress() > flow.state.progress(),
{
}

/// Three events end every attempt, whatever they are.
pub proof fn lemma_three_events_suffice(
    username: Seq<char>,
    password: Seq<char>,
    events: Seq<LoginEventView>,
    home: Result<Seq<char>, Seq<char>>,
)
    requires
        events.len() >= 3,
    ensures
        run_model(initial_flow(username, password), events, home).state.is_terminal(),
{
    let f0 = initial_flow(username, password);
    let end = run_model(f0, events, home);
    let f1 = advance_model(f0, events[0], home).0;
    let e1 = events.drop_first();
    assert(end == run_model(f1, e1, home));
    let f2 = advance_model(f1, e1[0], home).0;
    let e2 = e1.drop_first();
    assert(run_model(f1, e1, home) == run_model(f2, e2, home));
    let f3 = advance_model(f2, e2[0], home).0;
    let e3 = e2.drop_first();
    assert(run_model(f2, e2, home) == run_model(f3, e3, home));
    lemma_flow_is_linear_or_final(f0, events[0], home);
    lemma_flow_is_linear_or_final(f1, e1[0], home);
    lemma_flow_is_linear_or_final(f2, e2[0], home);
    lemma_run_keeps_terminal(f3, e3, home);
}

/// An event never moves an attempt back, finished or not.
proof fn lemma_flow_is_linear_or_final(
    flow: LoginFlowView,
    event: LoginEventView,
    home: Result<Seq<char>, Seq<char>>,
)
    ensures
        advance_model(flow, event, home).0.state.progress() >= flow.state.progress(),
        flow.state.progress() < 3 ==> advance_model(flow, event, home).0.state.progress()
            > flow.state.progress(),
        advance_model(flow, event, home).0.state.progress() == 3 <==> advance_model(
            flow,
            event,
            home,
        ).0.state.is_terminal(),
{
}

/// The credentials of an attempt never change.
pub proof fn lemma_credentials_are_kept(
    flow: LoginFlowView,
    event: LoginEventView,
    home: Result<Seq<char>, Seq<char>>,
)
    ensures
        advance_model(flow, event, home).0.username == flow.username,
        advance_model(flow, event, home).0.password == flow.password,
{
}

/// The caller is asked to finish exactly when the attempt has reached a
/// terminal state, and then the result is there.
pub proof fn lemma_finish_iff_terminal(
    flow: LoginFlowView,
    event: LoginEventView,
    home: Result<Seq<char>, Seq<char>>,
)
    ensures
        advance_model(flow, event, home).1 is Finish <==> advance_model(
            flow,
            event,
            home,
        ).0.state.is_terminal(),
        advance_model(flow, event, home).1 is Finish <==> outcome_model(
            advance_model(flow, event, home).0,
        ) is Some,
{
}

/// Every transport failure ends the attempt as `RequestFailed`, named after
/// the request during which it happened.
pub proof fn lemma_transport_failure_is_named(
    flow: LoginFlowView,
    detail: Seq<char>,
    home: Result<Seq<char>, Seq<char>>,
)
    requires
        !flow.state.is_terminal(),
    ensures
        advance_model(flow, LoginEventView::TransportFailed(detail), home).0.state
            == LoginStateView::Failed(
            AuthErrorView::RequestFailed(
                match flow.state {
                    LoginStateView::Init => Operation::Bootstrap,
                    LoginStateView::Submitting => Operation::Submit,
                    _ => Operation::Extract,
                },
                detail,
            ),
        ),
{
}

/// An attempt succeeds only in the transition out of `Extracting`, on a
/// response whose own `Set-Cookie` entries hold the authentication cookie.
/// Cookies seen in any other state decide nothing.
pub proof fn lemma_success_only_from_extraction(
    flow: LoginFlowView,
    event: LoginEventView,
    home: Result<Seq<char>, Seq<char>>,
)
    requires
        !flow.state.is_terminal(),
        advance_model(flow, event, home).0.state is Done,
    ensures
        flow.state is Extracting,
        event matches LoginEventView::Reply(reply) && cookie_value(reply.cookies, AUTH_COOKIE_NAME@)
            == Some(advance_model(flow, event, home).0.state->Done_0),
{
}

/// What each step reads of a response. The answer to the bootstrap is not
/// read at all: its status is advisory and its cookies decide nothing. Of
/// the answer to the submission only the status and the body are read. Of the
/// answer to the extraction request only the cookies are read: their
/// presence is the sole sign of success, whatever the status.
pub proof fn lemma_what_each_step_reads(
    flow: LoginFlowView,
    one: HttpReplyView,
    other: HttpReplyView,
    home: Result<Seq<char>, Seq<char>>,
)
    requires
        flow.state is Submitting ==> one.status == other.status && one.body == other.body,
        flow.state is Extracting ==> one.cookies == other.cookies,
    ensures
        advance_model(flow, LoginEventView::Reply(one), home) == advance_model(
            flow,
            LoginEventView::Reply(other),
            home,
        ),
{
}

/// A rejected submission is reported as `LoginFailed` and nothing else:
/// two rejected answers, however they differ, leave the attempt in the same
/// state, so that nothing of the portal's answer reaches the remote caller.
pub proof fn lemma_rejection_reveals_nothing(
    flow: LoginFlowView,
    one: HttpReplyView,
    other: HttpReplyView,
    home: Result<Seq<char>, Seq<char>>,
)
    requires
        flow.state is Submitting,
        !submission_accepted(one.status, one.body),
        !submission_accepted(other.status, other.body),
    ensures
        advance_model(flow, LoginEventView::Reply(one), home) == failed(
            flow,
            AuthErrorView::LoginFailed,
        ),
        advance_model(flow, LoginEventView::Reply(one), home) == advance_model(
            flow,
            LoginEventView::Reply(other),
            home,
        ),
{
}

/// The handshake in full. An attempt that begins in `Init` and has
/// succeeded after some events has seen at least three of them, and the
/// first three were: a response to the bootstrap; a response to the
/// submission with no failure marker and a status of success or redirect;
/// and a response to the extraction request whose cookies hold the token.
/// The home page address was parsed. No shorter sequence succeeds.
pub proof fn lemma_success_needs_full_handshake(
    username: Seq<char>,
    password: Seq<char>,
    events: Seq<LoginEventView>,
    home: Result<Seq<char>, Seq<char>>,
)
    requires
        run_model(initial_flow(username, password), events, home).state is Done,
    ensures
        events.len() >= 3,
        events[0] is Reply,
        events[1] matches LoginEventView::Reply(reply) && submission_accepted(
            reply.status,
            reply.body,
        ),
        home is Ok,
        events[2] matches LoginEventView::Reply(reply) && cookie_value(
            reply.cookies,
            AUTH_COOKIE_NAME@,
        ) == Some(run_model(initial_flow(username, password), events, home).state->Done_0),
        outcome_model(run_model(initial_flow(username, password), events, home)) == Some(
            Ok::<(Seq<char>, Seq<char>, Seq<char>), AuthErrorView>(
                (
                    run_model(initial_flow(username, password), events, home).state->Done_0,
                    username,
                    password,
                ),
            ),
        ),
        actions_model(initial_flow(username, password), events, home)[0]
            == LoginActionView::Send(submit_request(username, password)),
        actions_model(initial_flow(username, password), events, home)[1]
            == LoginActionView::Send(extract_request(home->Ok_0)),
        actions_model(initial_flow(username, password), events, home)[2]
            == LoginActionView::Finish,
{
    let f0 = initial_flow(username, password);
    let end = run_model(f0, events, home);
    if events.len() > 0 {
        let f1 = advance_model(f0, events[0], home).0;
        let e1 = events.drop_first();
        assert(end == run_model(f1, e1, home));
        if f1.state.is_terminal() {
            lemma_run_keeps_terminal(f1, e1, home);
        } else if e1.len() > 0 {
            assert(e1[0] == events[1]);
            let f2 = advance_model(f1, e1[0], home).0;
            let e2 = e1.drop_first();
            assert(end == run_model(f2, e2, home));
            if f2.state.is_terminal() {
                lemma_run_keeps_terminal(f2, e2, home);
            } else if e2.len() > 0 {
                assert(e2[0] == events[2]);
                let f3 = advance_model(f2, e2[0], home).0;
                let e3 = e2.drop_first();
                assert(end == run_model(f3, e3, home));
                lemma_run_keeps_terminal(f3, e3, home);
                let a2 = actions_model(f2, e2, home);
                let a1 = actions_model(f1, e1, home);
                let a0 = actions_model(f0, events, home);
                assert(a2[0] == advance_model(f2, e2[0], home).1);
                assert(a1[1] == a2[0]);
                assert(a0[2] == a1[1]);
                assert(a0[1] == a1[0]);
            }
        }
    }
}

/// Attempts are isolated from each other. When the events of two attempts
/// arrive in any interleaving, each attempt ends where it would have ended
/// had it seen its own events alone: nothing that happens to one attempt,
/// its credentials, its cookies or its failures, reaches the other.
pub proof fn lemma_attempts_are_isolated(
    first: LoginFlowView,
    second: LoginFlowView,
    schedule: Seq<(bool, LoginEventView)>,
    home: Result<Seq<char>, Seq<char>>,
)
    ensures
        run_pair_model(first, second, schedule, home).0 == run_model(
            first,
            events_of(schedule, true),
            home,
        ),
        run_pair_model(first, second, schedule, home).1 == run_model(
            second,
            events_of(schedule, false),
            home,
        ),
    decreases schedule.len(),
{
    if schedule.len() > 0 {
        let event = schedule[0].1;
        let rest = schedule.drop_first();
        if schedule[0].0 {
            let next = advance_model(first, event, home).0;
            lemma_attempts_are_isolated(next, second, rest, home);
            let own = events_of(schedule, true);
            assert(own[0] == event);
            assert(own.drop_first() =~= events_of(rest, true));
        } else {
            let next = advance_model(second, event, home).0;
            lemma_attempts_are_isolated(first, next, rest, home);
            let own = events_of(schedule, false);
            assert(own[0] == event);
            assert(own.drop_first() =~= events_of(rest, false));
        }
    }
}

/// A finished attempt asks for no request, whatever is reported to it.
pub proof fn lemma_no_request_after_the_end(
    flow: LoginFlowView,
    events: Seq<LoginEventView>,
    home: Result<Seq<char>, Seq<char>>,
)
    requires
        flow.state.is_terminal(),
    ensures
        sent_model(actions_model(flow, events, home)) == Seq::<HttpRequestView>::empty(),
    decreases events.len(),
{
    if events.len() > 0 {
        let rest = actions_model(flow, events.drop_first(), home);
        lemma_no_request_after_the_end(flow, events.drop_first(), home);
        let all = actions_model(flow, events, home);
        assert(all[0] == LoginActionView::Finish);
        assert(all.drop_first() =~= rest);
    }
}

/// A successful attempt has sent exactly three requests, once each and in
/// this order: the `GET` of the CAS login page, the `POST` of the form to
/// the submission endpoint, and the `GET` of the parsed home page address.
/// Each was asked for only when the one before it had been answered, and
/// nothing was sent after the third, however many events followed.
pub proof fn lemma_success_sends_three_requests(
    username: Seq<char>,
    password: Seq<char>,
    events: Seq<LoginEventView>,
    home: Result<Seq<char>, Seq<char>>,
)
    requires
        run_model(initial_flow(username, password), events, home).state is Done,
    ensures
        home is Ok,
        requests_model(username, password, events, home) == seq![
            bootstrap_request(),
            submit_request(username, password),
            extract_request(home->Ok_0),
        ],
{
    lemma_success_needs_full_handshake(username, password, events, home);
    let f0 = initial_flow(username, password);
    let n0 = advance_model(f0, events[0], home);
    let e1 = events.drop_first();
    let n1 = advance_model(n0.0, e1[0], home);
    let e2 = e1.drop_first();
    let n2 = advance_model(n1.0, e2[0], home);
    let e3 = e2.drop_first();
    assert(e1[0] == events[1]);
    assert(e2[0] == events[2]);
    let a0 = actions_model(f0, events, home);
    let a1 = actions_model(n0.0, e1, home);
    let a2 = actions_model(n1.0, e2, home);
    let a3 = actions_model(n2.0, e3, home);
    assert(a0.drop_first() =~= a1);
    assert(a1.drop_first() =~= a2);
    assert(a2.drop_first() =~= a3);
    assert(a0[0] == n0.1);
    assert(a1[0] == n1.1);
    assert(a2[0] == n2.1);
    assert(a0[1] == a1[0]);
    assert(a0[2] == a2[0]);
    lemma_no_request_after_the_end(n2.0, e3, home);
    assert(sent_model(a2) == sent_model(a3));
    assert(sent_model(a1) =~= seq![extract_request(home->Ok_0)]);
    assert(sent_model(a0) =~= seq![
        submit_request(username, password),
        extract_request(home->Ok_0),
    ]);
}

/// Running on from a terminal state leaves it as it is.
pub proof fn lemma_run_keeps_terminal(
    flow: LoginFlowView,
    events: Seq<LoginEventView>,
    home: Result<Seq<char>, Seq<char>>,
)
    requires
        flow.state.is_terminal(),
    ensures
        run_model(flow, events, home) == flow,
    decreases events.len(),
{
    if events.len() > 0 {
        lemma_run_keeps_terminal(flow, events.drop_first(), home);
    }
}

/// Running an attempt never changes its credentials.
pub proof fn lemma_run_keeps_credentials(
    flow: LoginFlowView,
    events: Seq<LoginEventView>,
    home: Result<Seq<char>, Seq<char>>,
)
    ensures
        run_model(flow, events, home).username == flow.username,
        run_model(flow, events, home).password == flow.password,
    decreases events.len(),
{
    if events.len() > 0 {
        lemma_run_keeps_credentials(
            advance_model(flow, events[0], home).0,
            events.drop_first(),
            home,
        );
    }
}

} // verus!

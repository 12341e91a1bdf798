//! The HTTP client of a login attempt: its settings, the headers it sends
//! with every request, and the client itself.

use crate::auth::errors::{AuthError, AuthErrorView, AuthResult};
use vstd::prelude::*;

verus! {

/// The header collection of the HTTP library; its contents are named by
/// [`header_entries`].
#[verifier::external_type_specification]
#[verifier::external_body]
#[verifier::reject_recursive_types(T)]
pub struct ExHeaderMap<T>(reqwest::header::HeaderMap<T>);

/// A header value of the HTTP library.
#[verifier::external_type_specification]
#[verifier::external_body]
pub struct ExHeaderValue(reqwest::header::HeaderValue);

/// The HTTP client: connection pool, settings and, if enabled, cookie store.
#[verifier::external_type_specification]
#[verifier::external_body]
pub struct ExClient(reqwest::Client);

/// The builder of HTTP clients, which gathers the settings of a client.
#[verifier::external_type_specification]
#[verifier::external_body]
pub struct ExClientBuilder(reqwest::ClientBuilder);

/// The HTTP library's error.
#[verifier::external_type_specification]
#[verifier::external_body]
pub struct ExError(reqwest::Error);

/// What a header collection holds: from each header name in it, written as
/// the collection keeps it (in lower case), to the text of the value stored
/// under that name; where several values were added under one name, the
/// one added last.
pub uninterp spec fn header_entries(map: reqwest::header::HeaderMap) -> Map<Seq<char>, Seq<char>>;

/// Characters that the header names of this library are made of: a part of
/// what the HTTP library takes, and kept by it as they are.
pub open spec fn is_name_char(c: char) -> bool {
    ('a' <= c <= 'z') || ('0' <= c <= '9') || c == '-'
}

/// A header name in the form in which the collection keeps it: one to 64
/// lower-case letters, digits and hyphens.
pub open spec fn is_header_name(name: Seq<char>) -> bool {
    &&& 1 <= name.len() <= 64
    &&& forall|i: int| 0 <= i < name.len() ==> is_name_char(#[trigger] name[i])
}

/// A header value of printable ASCII characters, which the HTTP library's
/// parser accepts and stores as they are.
pub open spec fn is_header_text(value: Seq<char>) -> bool {
    forall|i: int| 0 <= i < value.len() ==> ' ' <= #[trigger] value[i] <= '~'
}

/// A collection small enough to take one more header: far below the size
/// at which the HTTP library refuses to grow.
pub open spec fn has_room(entries: Map<Seq<char>, Seq<char>>) -> bool {
    entries.dom().finite() && entries.dom().len() < 64
}

/// The contents of a collection that holds nothing.
pub open spec fn no_headers() -> Map<Seq<char>, Seq<char>> {
    Map::empty()
}

/// Calls `HeaderMap::new`: a collection that holds nothing.
#[verifier::external_body]
fn new_header_map() -> (map: reqwest::header::HeaderMap)
    ensures
        header_entries(map) == no_headers(),
{
    reqwest::header::HeaderMap::new()
}

/// Calls `HeaderMap::insert` with `name` and with `value` parsed as a
/// `HeaderValue`. The name is already in the form in which the collection
/// keeps names and the value is one that the parser accepts, so the
/// collection afterwards holds `value` under `name` and is otherwise as
/// before; a value stored under `name` before is replaced.
#[verifier::external_body]
fn insert_header(map: &mut reqwest::header::HeaderMap, name: &'static str, value: &'static str)
    requires
        is_header_name(name@),
        is_header_text(value@),
        has_room(header_entries(*old(map))),
    ensures
        header_entries(*final(map)) == header_entries(*old(map)).insert(name@, value@),
{
    map.insert(name, value.parse().unwrap());
}

/// The settings of an HTTP client.
#[derive(Clone, Copy, Debug, PartialEq, Eq, Structural)]
pub struct ClientSettings {
    /// Keep the cookies of responses and send them with later requests of
    /// the same client.
    pub cookie_store: bool,
    /// At most this many idle connections are kept per host.
    pub pool_max_idle_per_host: usize,
    /// An idle connection is closed after this many seconds.
    pub pool_idle_timeout_secs: u64,
    /// Seconds allowed for connecting.
    pub connect_timeout_secs: u64,
    /// Seconds allowed for a whole request.
    pub request_timeout_secs: u64,
    pub gzip: bool,
    pub brotli: bool,
    pub deflate: bool,
    pub tcp_nodelay: bool,
    /// TCP keep-alive probes are sent after this many idle seconds.
    pub tcp_keepalive_secs: u64,
    /// Redirects are followed up to this many hops.
    pub max_redirects: usize,
    /// Speak HTTP/1 only, and never HTTP/2.
    pub http1_only: bool,
    pub accept_invalid_certs: bool,
}

/// The settings of the client of one login attempt: a cookie store of its
/// own, at most 10 idle connections per host kept for 90 seconds, 10 seconds
/// to connect and 30 for a request, compressed responses, TCP keep-alive,
/// redirects followed for at most 10 hops, and HTTP/1 only.
pub open spec fn session_settings_model() -> ClientSettings {
    ClientSettings {
        cookie_store: true,
        pool_max_idle_per_host: 10,
        pool_idle_timeout_secs: 90,
        connect_timeout_secs: 10,
        request_timeout_secs: 30,
        gzip: true,
        brotli: true,
        deflate: true,
        tcp_nodelay: true,
        tcp_keepalive_secs: 60,
        max_redirects: 10,
        http1_only: true,
        accept_invalid_certs: false,
    }
}

/// The settings of a client for requests that belong to no session: those
/// of a session client, without the cookie store.
pub open spec fn shared_settings_model() -> ClientSettings {
    ClientSettings { cookie_store: false, ..session_settings_model() }
}

/// The settings of the client of one login attempt.
pub fn session_settings() -> (settings: ClientSettings)
    ensures
        settings == session_settings_model(),
{
    ClientSettings {
        cookie_store: true,
        pool_max_idle_per_host: 10,
        pool_idle_timeout_secs: 90,
        connect_timeout_secs: 10,
        request_timeout_secs: 30,
        gzip: true,
        brotli: true,
        deflate: true,
        tcp_nodelay: true,
        tcp_keepalive_secs: 60,
        max_redirects: 10,
        http1_only: true,
        accept_invalid_certs: false,
    }
}

/// The settings of a client for requests that belong to no session.
pub fn shared_settings() -> (settings: ClientSettings)
    ensures
        settings == shared_settings_model(),
{
    let session = session_settings();
    ClientSettings { cookie_store: false, ..session }
}

/// The `User-Agent` of an ordinary desktop browser.
pub const USER_AGENT: &'static str =
    "Mozilla/5.0 (Windows NT 10.0; Win64; x64) AppleWebKit/537.36 (KHTML, like Gecko) Chrome/120.0.0.0 Safari/537.36";

/// The `Accept` value of a browser that navigates to a page.
pub const ACCEPT: &'static str =
    "text/html,application/xhtml+xml,application/xml;q=0.9,image/avif,image/webp,image/apng,*/*;q=0.8,application/signed-exchange;v=b3;q=0.7";

/// The `Accept-Language` value sent with every request.
pub const ACCEPT_LANGUAGE: &'static str = "en-US,en;q=0.9";

/// The headers that every request of a session client carries. They are
/// those of an ordinary browser, so that the portal does not turn the
/// client away.
pub open spec fn common_headers() -> Map<Seq<char>, Seq<char>> {
    map![
        "user-agent"@ => USER_AGENT@,
        "accept"@ => ACCEPT@,
        "accept-language"@ => ACCEPT_LANGUAGE@,
        "accept-encoding"@ => "gzip, deflate, br"@,
        "cache-control"@ => "no-cache"@,
        "pragma"@ => "no-cache"@,
        "upgrade-insecure-requests"@ => "1"@,
        "sec-fetch-dest"@ => "document"@,
        "sec-fetch-mode"@ => "navigate"@,
        "sec-fetch-site"@ => "none"@,
        "sec-fetch-user"@ => "?1"@,
    ]
}

/// The headers that every request of a session client carries.
pub fn set_common_headers() -> (headers: reqwest::header::HeaderMap)
    ensures
        header_entries(headers) == common_headers(),
{
    proof {
        reveal_strlit(
            "Mozilla/5.0 (Windows NT 10.0; Win64; x64) AppleWebKit/537.36 (KHTML, like Gecko) Chrome/120.0.0.0 Safari/537.36",
        );
        reveal_strlit(
            "text/html,application/xhtml+xml,application/xml;q=0.9,image/avif,image/webp,image/apng,*/*;q=0.8,application/signed-exchange;v=b3;q=0.7",
        );
        reveal_strlit("en-US,en;q=0.9");
        reveal_strlit("gzip, deflate, br");
        reveal_strlit("no-cache");
        reveal_strlit("1");
        reveal_strlit("document");
        reveal_strlit("navigate");
        reveal_strlit("none");
        reveal_strlit("?1");
        reveal_strlit("user-agent");
        reveal_strlit("accept");
        reveal_strlit("accept-language");
        reveal_strlit("accept-encoding");
        reveal_strlit("cache-control");
        reveal_strlit("pragma");
        reveal_strlit("upgrade-insecure-requests");
        reveal_strlit("sec-fetch-dest");
        reveal_strlit("sec-fetch-mode");
        reveal_strlit("sec-fetch-site");
        reveal_strlit("sec-fetch-user");
    }
    let mut headers = new_header_map();
    insert_header(&mut headers, "user-agent", USER_AGENT);
    insert_header(&mut headers, "accept", ACCEPT);
    insert_header(&mut headers, "accept-language", ACCEPT_LANGUAGE);
    insert_header(&mut headers, "accept-encoding", "gzip, deflate, br");
    insert_header(&mut headers, "cache-control", "no-cache");
    insert_header(&mut headers, "pragma", "no-cache");
    insert_header(&mut headers, "upgrade-insecure-requests", "1");
    insert_header(&mut headers, "sec-fetch-dest", "document");
    insert_header(&mut headers, "sec-fetch-mode", "navigate");
    insert_header(&mut headers, "sec-fetch-site", "none");
    insert_header(&mut headers, "sec-fetch-user", "?1");
    headers
}

/// The settings that a builder has gathered so far.
pub uninterp spec fn builder_settings(builder: reqwest::ClientBuilder) -> ClientSettings;

/// The default headers that a builder has gathered so far, as
/// [`header_entries`] of the collection it keeps them in.
pub uninterp spec fn builder_headers(builder: reqwest::ClientBuilder) -> Map<Seq<char>, Seq<char>>;

/// The settings that a client was built with.
pub uninterp spec fn client_settings(client: reqwest::Client) -> ClientSettings;

/// The headers that a client sends with every request, unless the request
/// sets them itself.
pub uninterp spec fn client_headers(client: reqwest::Client) -> Map<Seq<char>, Seq<char>>;

/// The text that describes an error of the HTTP library.
pub uninterp spec fn error_description(error: reqwest::Error) -> Seq<char>;

/// `settings` with `http1_only` set to `only`.
pub open spec fn with_http1_only(settings: ClientSettings, only: bool) -> ClientSettings {
    ClientSettings { http1_only: only, ..settings }
}

/// The one default header of a builder that has been given none.
pub open spec fn builder_defaults() -> Map<Seq<char>, Seq<char>> {
    map!["accept"@ => "*/*"@]
}

/// The default headers of a builder that has been given `headers`: each of
/// them, and the builder's own where `headers` has none of that name.
pub open spec fn default_headers_with(headers: Map<Seq<char>, Seq<char>>) -> Map<
    Seq<char>,
    Seq<char>,
> {
    builder_defaults().union_prefer_right(headers)
}

/// Calls `reqwest::ClientBuilder::new`, then the builder's setter of each
/// field of `settings` but `http1_only` (timeouts as whole seconds, redirects
/// limited to `max_redirects`), then `default_headers` with `headers`. A new
/// builder is not restricted to HTTP/1 and has the one default header
/// `accept: */*`; each setter stores its argument; `default_headers` copies
/// every header into the builder's own small collection with
/// `HeaderMap::insert`, which cannot fail for a collection with room left.
#[verifier::external_body]
fn new_builder(settings: &ClientSettings, headers: reqwest::header::HeaderMap) -> (builder:
    reqwest::ClientBuilder)
    requires
        has_room(header_entries(headers)),
    ensures
        builder_settings(builder) == with_http1_only(*settings, false),
        builder_headers(builder) == default_headers_with(header_entries(headers)),
{
    reqwest::ClientBuilder::new()
        .cookie_store(settings.cookie_store)
        .pool_max_idle_per_host(settings.pool_max_idle_per_host)
        .pool_idle_timeout(std::time::Duration::from_secs(settings.pool_idle_timeout_secs))
        .connect_timeout(std::time::Duration::from_secs(settings.connect_timeout_secs))
        .timeout(std::time::Duration::from_secs(settings.request_timeout_secs))
        .gzip(settings.gzip).brotli(settings.brotli).deflate(settings.deflate)
        .tcp_nodelay(settings.tcp_nodelay)
        .tcp_keepalive(std::time::Duration::from_secs(settings.tcp_keepalive_secs))
        .redirect(reqwest::redirect::Policy::limited(settings.max_redirects))
        .danger_accept_invalid_certs(settings.accept_invalid_certs)
        .default_headers(headers)
}

/// Calls `ClientBuilder::http1_only`: the builder is restricted to HTTP/1
/// and is otherwise as before.
#[verifier::external_body]
fn only_http1(builder: reqwest::ClientBuilder) -> (restricted: reqwest::ClientBuilder)
    ensures
        builder_settings(restricted) == with_http1_only(builder_settings(builder), true),
        builder_headers(restricted) == builder_headers(builder),
{
    builder.http1_only()
}

/// Calls `ClientBuilder::build`. Whether the client can be built depends on
/// the machine (its TLS backend and proxy settings), so success is not
/// promised. A client that was built has the builder's settings and its
/// default headers.
#[verifier::external_body]
fn finish_builder(builder: reqwest::ClientBuilder) -> (built: Result<
    reqwest::Client,
    reqwest::Error,
>)
    ensures
        built matches Ok(client) ==> client_settings(client) == builder_settings(builder),
        built matches Ok(client) ==> client_headers(client) == builder_headers(builder),
{
    builder.build()
}

/// Builds a client with the given settings and default headers.
fn build_client(settings: &ClientSettings, headers: reqwest::header::HeaderMap) -> (built: Result<
    reqwest::Client,
    reqwest::Error,
>)
    requires
        has_room(header_entries(headers)),
    ensures
        built matches Ok(client) ==> client_settings(client) == *settings,
        built matches Ok(client) ==> client_headers(client) == default_headers_with(
            header_entries(headers),
        ),
{
    let builder = new_builder(settings, headers);
    let builder = if settings.http1_only {
        only_http1(builder)
    } else {
        builder
    };
    finish_builder(builder)
}

/// Calls `to_string` on a `reqwest::Error`: its description, which depends
/// on the error alone.
#[verifier::external_body]
fn error_text(error: &reqwest::Error) -> (text: String)
    ensures
        text@ == error_description(*error),
{
    error.to_string()
}

/// Mathematical value of a client or the failure in its place. A client is
/// its own value.
pub open spec fn client_view(client: AuthResult<reqwest::Client>) -> Result<
    reqwest::Client,
    AuthErrorView,
> {
    match client {
        Ok(made) => Ok(made),
        Err(error) => Err(error@),
    }
}

/// What becomes of the builder's answer: the client itself, or
/// `InternalError` with the description of the builder's error.
pub open spec fn client_or_error_model(built: Result<reqwest::Client, reqwest::Error>) -> Result<
    reqwest::Client,
    AuthErrorView,
> {
    match built {
        Ok(made) => Ok(made),
        Err(error) => Err(AuthErrorView::InternalError(error_description(error))),
    }
}

/// The client that was built, or `InternalError` with the builder's
/// description of why none was.
pub fn client_or_error(built: Result<reqwest::Client, reqwest::Error>) -> (client: AuthResult<
    reqwest::Client,
>)
    ensures
        client_view(client) == client_or_error_model(built),
{
    match built {
        Ok(made) => Ok(made),
        Err(error) => Err(AuthError::InternalError(error_text(&error))),
    }
}

/// A new client for one login attempt. If it can be built, it has the
/// session settings, among them a cookie store of its own, and sends the
/// common headers with every request; if not, the failure is an
/// `InternalError`. The client is to be used for that attempt alone and
/// dropped with it.
pub fn create_client_with_cookies() -> (client: AuthResult<reqwest::Client>)
    ensures
        client matches Ok(made) ==> client_settings(made) == session_settings_model(),
        client matches Ok(made) ==> client_headers(made) == common_headers(),
        client matches Err(error) ==> error@ is InternalError,
{
    let settings = session_settings();
    let headers = set_common_headers();
    assert(default_headers_with(common_headers()) =~= common_headers());
    client_or_error(build_client(&settings, headers))
}

/// A new client for requests that belong to no session. If it can be
/// built, it has the shared settings, so no cookie store, and no default
/// header beyond the builder's own; if not, the failure is an
/// `InternalError`.
pub fn create_http_client() -> (client: AuthResult<reqwest::Client>)
    ensures
        client matches Ok(made) ==> client_settings(made) == shared_settings_model(),
        client matches Ok(made) ==> client_headers(made) == builder_defaults(),
        client matches Err(error) ==> error@ is InternalError,
{
    let settings = shared_settings();
    let headers = new_header_map();
    assert(default_headers_with(no_headers()) =~= builder_defaults());
    client_or_error(build_client(&settings, headers))
}

} // verus!

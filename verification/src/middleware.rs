//! The decisions of the HTTP middleware: which requests need
//! authentication and what happens when it fails, when maintenance mode lets
//! a request through, which requests the profiler records, which security
//! headers every response gets, and which address a client is taken to have.
use vstd::prelude::*;
use crate::cookie::{header_value_ok, header_value_valid};
use crate::jsonapi::{ApiError, ApiErrorView};
use crate::text::{find_char, is_prefix, slice_chars, starts_with, str_eq, string_of, to_chars, trim_chars, trim_seq, from_chars};

verus! {

/// Where requests that need a login are sent.
pub const LOGIN_PATH: &'static str = "/login";

/// The path of the logout request.
pub open spec fn is_logout(path: Seq<char>, method: Seq<char>) -> bool {
    path == "/logout"@ && (method == "POST"@ || method == "GET"@)
}

/// A `POST` or `GET` of `/logout`.
pub fn is_logout_request(path: &str, method: &str) -> (r: bool)
    ensures
        r == is_logout(path@, method@),
{
    (str_eq(method, "POST") && str_eq(path, "/logout")) || (str_eq(method, "GET") && str_eq(path, "/logout"))
}

/// The pages reached before logging in.
pub open spec fn is_entry_point(path: Seq<char>) -> bool {
    path == "/login"@ || path == "/2fa"@ || path == "/register"@ || path == "/forgot-password"@
        || path == "/reset-password"@
}

/// Whether `path` is a page reached before logging in.
pub fn is_entry_point_page(path: &str) -> (r: bool)
    ensures
        r == is_entry_point(path@),
{
    str_eq(path, "/login") || str_eq(path, "/2fa") || str_eq(path, "/register") || str_eq(
        path,
        "/forgot-password",
    ) || str_eq(path, "/reset-password")
}

/// What the authentication middleware does with a request before trying to
/// authenticate it.
#[derive(Debug, Clone, Copy, PartialEq, Eq, Structural)]
pub enum AuthRoute {
    /// Hand the request on as it is.
    PassThrough,
    /// End the session and send the client to the login page.
    Logout,
    /// Hand the request on as the user of the restored session.
    RestoredSession,
    /// Try the authenticators.
    Authenticate,
}

/// The route of a request: without a firewall rule, or under one that needs
/// no authentication, it passes; a logout ends the session; a restored
/// session token lets it through as its user; the entry-point pages pass;
/// anything else is authenticated. `requires_auth` is the firewall rule's
/// answer, none when no rule matched.
pub open spec fn auth_route(requires_auth: Option<bool>, path: Seq<char>, method: Seq<char>, restored: bool) -> AuthRoute {
    match requires_auth {
        None => AuthRoute::PassThrough,
        Some(false) => AuthRoute::PassThrough,
        Some(true) => if is_logout(path, method) {
            AuthRoute::Logout
        } else if restored {
            AuthRoute::RestoredSession
        } else if is_entry_point(path) {
            AuthRoute::PassThrough
        } else {
            AuthRoute::Authenticate
        },
    }
}

/// The route of a request through the authentication middleware.
pub fn route_request(requires_auth: Option<bool>, path: &str, method: &str, restored: bool) -> (r: AuthRoute)
    ensures
        r == auth_route(requires_auth, path@, method@, restored),
{
    match requires_auth {
        None => AuthRoute::PassThrough,
        Some(false) => AuthRoute::PassThrough,
        Some(true) => if is_logout_request(path, method) {
            AuthRoute::Logout
        } else if restored {
            AuthRoute::RestoredSession
        } else if is_entry_point_page(path) {
            AuthRoute::PassThrough
        } else {
            AuthRoute::Authenticate
        },
    }
}

/// How trying the authenticators ended.
#[derive(Debug, Clone, Copy, PartialEq, Eq, Structural)]
pub enum AuthAttempt {
    /// An authenticator answered the request itself.
    Responded,
    /// A user was authenticated.
    Authenticated,
    /// No credentials were found.
    NoCredentials,
}

/// What the middleware does after trying the authenticators.
#[derive(Debug, Clone)]
pub enum AuthAction {
    /// Send the authenticator's response.
    SendResponse,
    /// Hand the request on as the authenticated user, keeping the token in
    /// the session when asked.
    Continue { store_token: bool },
    /// Fail the request.
    Reject(ApiError),
    /// Send the client to the login page.
    RedirectToLogin,
}

/// After authentication: a stateless firewall keeps no session and rejects a
/// request without credentials; a stateful one stores the token and sends
/// a request without credentials to the login page.
pub fn after_authentication(attempt: AuthAttempt, stateless: bool) -> (r: AuthAction)
    ensures
        match attempt {
            AuthAttempt::Responded => r is SendResponse,
            AuthAttempt::Authenticated => r == AuthAction::Continue { store_token: !stateless },
            AuthAttempt::NoCredentials => if stateless {
                r is Reject && r->Reject_0@ == ApiErrorView::AuthenticationFailed("Authentication required"@)
            } else {
                r is RedirectToLogin
            },
        },
{
    match attempt {
        AuthAttempt::Responded => AuthAction::SendResponse,
        AuthAttempt::Authenticated => AuthAction::Continue { store_token: !stateless },
        AuthAttempt::NoCredentials => if stateless {
            AuthAction::Reject(ApiError::AuthenticationFailed(string_of("Authentication required")))
        } else {
            AuthAction::RedirectToLogin
        },
    }
}

/// The (name, value) pairs that `form_urlencoded::parse` reads from a query
/// string: split at `&`, each at its first `=`, `+` read as a space and
/// percent escapes decoded.
pub uninterp spec fn form_decode(query: Seq<char>) -> Seq<(Seq<char>, Seq<char>)>;

/// `url::form_urlencoded::parse` on the bytes of the query, each pair made
/// owned. Its result is stated only through `form_decode`.
#[verifier::external_body]
fn form_pairs(query: &str) -> (r: Vec<(String, String)>)
    ensures
        r@.map_values(|p: (String, String)| (p.0@, p.1@)) == form_decode(query@),
{
    url::form_urlencoded::parse(query.as_bytes()).into_owned().collect()
}

/// The value of the last pair named `name`: collected into a map, a later
/// pair replaces an earlier one.
pub open spec fn last_value(pairs: Seq<(Seq<char>, Seq<char>)>, name: Seq<char>) -> Option<Seq<char>>
    decreases pairs.len(),
{
    if pairs.len() == 0 {
        None
    } else if pairs.last().0 == name {
        Some(pairs.last().1)
    } else {
        last_value(pairs.drop_last(), name)
    }
}

/// What maintenance mode does with a request.
#[derive(Debug, Clone, Copy, PartialEq, Eq, Structural)]
pub enum MaintenanceDecision {
    /// Not in maintenance, or the health check: hand it on.
    Proceed,
    /// The bypass token matched: hand it on.
    Bypassed,
    /// Answer that the application is unavailable; `bad_token` when a
    /// bypass token was given and did not match.
    Blocked { bad_token: bool },
}

/// The answer to a blocked request.
pub const MAINTENANCE_MESSAGE: &'static str = "Application is currently under maintenance. Please try again later.";

/// What a request carrying the query pairs `pairs` gets in maintenance mode
/// when `token` is the bypass token.
pub open spec fn bypass_outcome(token: Seq<char>, pairs: Seq<(Seq<char>, Seq<char>)>) -> MaintenanceDecision {
    match last_value(pairs, "bypass"@) {
        Some(v) => if v == token {
            MaintenanceDecision::Bypassed
        } else {
            MaintenanceDecision::Blocked { bad_token: true }
        },
        None => MaintenanceDecision::Blocked { bad_token: false },
    }
}

/// What a request with the query pairs `pairs` gets in maintenance mode when
/// `token` is the bypass token.
pub fn bypass_decision(token: &str, pairs: &[(String, String)]) -> (r: MaintenanceDecision)
    ensures
        r == bypass_outcome(token@, pairs@.map_values(|p: (String, String)| (p.0@, p.1@))),
{
    let ghost all = pairs@.map_values(|p: (String, String)| (p.0@, p.1@));
    let mut i: usize = pairs.len();
    assert(all.take(i as int) =~= all);
    while i > 0
        invariant
            i <= pairs@.len(),
            all == pairs@.map_values(|p: (String, String)| (p.0@, p.1@)),
            last_value(all, "bypass"@) == last_value(all.take(i as int), "bypass"@),
        decreases i,
    {
        let ghost part = all.take(i as int);
        assert(part.last() == all[i - 1]);
        assert(part.drop_last() =~= all.take(i - 1));
        if str_eq(pairs[i - 1].0.as_str(), "bypass") {
            if str_eq(pairs[i - 1].1.as_str(), token) {
                return MaintenanceDecision::Bypassed;
            } else {
                return MaintenanceDecision::Blocked { bad_token: true };
            }
        }
        i = i - 1;
    }
    MaintenanceDecision::Blocked { bad_token: false }
}

/// What maintenance mode does with a request: outside maintenance, and for
/// the health check, it proceeds; otherwise it is blocked unless the query's
/// `bypass` parameter equals the bypass token.
pub open spec fn maintenance_outcome(
    maintenance: bool,
    path: Seq<char>,
    token: Option<Seq<char>>,
    query: Option<Seq<char>>,
) -> MaintenanceDecision {
    if !maintenance || path == "/health"@ {
        MaintenanceDecision::Proceed
    } else {
        match (token, query) {
            (Some(t), Some(q)) => bypass_outcome(t, form_decode(q)),
            _ => MaintenanceDecision::Blocked { bad_token: false },
        }
    }
}

/// What maintenance mode does with a request for `path` with the query
/// string `query`.
pub fn maintenance_decision(maintenance: bool, path: &str, token: Option<&str>, query: Option<&str>) -> (r:
    MaintenanceDecision)
    ensures
        r == maintenance_outcome(
            maintenance,
            path@,
            match token {
                Some(t) => Some(t@),
                None => None,
            },
            match query {
                Some(q) => Some(q@),
                None => None,
            },
        ),
{
    if !maintenance || str_eq(path, "/health") {
        return MaintenanceDecision::Proceed;
    }
    match (token, query) {
        (Some(t), Some(q)) => {
            let pairs = form_pairs(q);
            bypass_decision(t, pairs.as_slice())
        },
        _ => MaintenanceDecision::Blocked { bad_token: false },
    }
}

/// The profiler records a request in debug mode, unless it is one of its
/// own.
pub open spec fn tracks(path: Seq<char>, debug: bool) -> bool {
    debug && !is_prefix("/__clockwork"@, path)
}

/// Whether the profiler records a request for `path`.
pub fn should_track(path: &str, debug: bool) -> (r: bool)
    ensures
        r == tracks(path@, debug),
{
    let chars = to_chars(path);
    debug && !starts_with(chars.as_slice(), "/__clockwork")
}

/// The headers the profiler adds to a recorded response: the request's id
/// when it is a valid header value, then its version and path.
pub open spec fn profiler_headers(request_id: Seq<char>) -> Seq<(Seq<char>, Seq<char>)> {
    (if header_value_valid(request_id) {
        seq![("X-Clockwork-Id"@, request_id)]
    } else {
        Seq::empty()
    }) + seq![("X-Clockwork-Version"@, "5.1"@), ("X-Clockwork-Path"@, "/__clockwork/"@)]
}

/// The headers the profiler adds to the response of the recorded request
/// `request_id`.
pub fn clockwork_headers(request_id: &str) -> (r: Vec<(String, String)>)
    ensures
        r@.map_values(|p: (String, String)| (p.0@, p.1@)) == profiler_headers(request_id@),
{
    let mut r: Vec<(String, String)> = Vec::new();
    if header_value_ok(request_id) {
        r.push((string_of("X-Clockwork-Id"), string_of(request_id)));
    }
    r.push((string_of("X-Clockwork-Version"), string_of("5.1")));
    r.push((string_of("X-Clockwork-Path"), string_of("/__clockwork/")));
    assert(r@.map_values(|p: (String, String)| (p.0@, p.1@)) =~= profiler_headers(request_id@));
    r
}

/// The security headers every response gets.
pub open spec fn security_header_list() -> Seq<(Seq<char>, Seq<char>)> {
    seq![
        ("X-Content-Type-Options"@, "nosniff"@),
        ("X-XSS-Protection"@, "1; mode=block"@),
        ("X-Frame-Options"@, "DENY"@),
        ("Referrer-Policy"@, "strict-origin-when-cross-origin"@),
        ("Permissions-Policy"@, "geolocation=(), microphone=(), camera=()"@),
    ]
}

/// The security headers every response gets, in the order they are set.
pub fn security_headers() -> (r: Vec<(&'static str, &'static str)>)
    ensures
        r@.map_values(|p: (&str, &str)| (p.0@, p.1@)) == security_header_list(),
{
    let mut r: Vec<(&'static str, &'static str)> = Vec::new();
    r.push(("X-Content-Type-Options", "nosniff"));
    r.push(("X-XSS-Protection", "1; mode=block"));
    r.push(("X-Frame-Options", "DENY"));
    r.push(("Referrer-Policy", "strict-origin-when-cross-origin"));
    r.push(("Permissions-Policy", "geolocation=(), microphone=(), camera=()"));
    assert(r@.map_values(|p: (&str, &str)| (p.0@, p.1@)) =~= security_header_list());
    r
}

/// The part of `s` before its first comma, all of it without one.
pub open spec fn before_comma(s: Seq<char>) -> Seq<char> {
    if s.contains(',') {
        s.take(choose|i: int| 0 <= i < s.len() && s[i] == ',' && forall|k: int| 0 <= k < i ==> s[k] != ',')
    } else {
        s
    }
}

/// The address an `X-Forwarded-For` header names for the client: its first
/// entry, without surrounding whitespace.
pub open spec fn forwarded_client(header: Seq<char>) -> Seq<char> {
    trim_seq(before_comma(header))
}

/// The first entry of an `X-Forwarded-For` header, trimmed.
pub fn forwarded_first(header: &str) -> (r: String)
    ensures
        r@ == forwarded_client(header@),
{
    let chars = to_chars(header);
    let end: usize = match find_char(chars.as_slice(), ',', 0) {
        Some(i) => {
            proof {
                assert(header@.contains(','));
                let j = choose|j: int| 0 <= j < header@.len() && header@[j] == ',' && forall|k: int|
                    0 <= k < j ==> header@[k] != ',';
                assert(j == i as int) by {
                    if j < i {
                        assert(chars@[j] == ',');
                    } else if j > i {
                        assert(header@[i as int] == ',');
                    }
                }
            }
            i
        },
        None => {
            proof {
                if header@.contains(',') {
                    let j = choose|j: int| 0 <= j < header@.len() && header@[j] == ',';
                    assert(chars@[j] == ',');
                }
            }
            chars.len()
        },
    };
    let head = slice_chars(chars.as_slice(), 0, end);
    assert(head@ =~= before_comma(header@));
    let t = trim_chars(head.as_slice());
    from_chars(t.as_slice())
}

/// Outside maintenance every request proceeds, and in maintenance the
/// health check still does.
pub proof fn law_health_check_always_passes(
    maintenance: bool,
    path: Seq<char>,
    token: Option<Seq<char>>,
    query: Option<Seq<char>>,
)
    requires
        !maintenance || path == "/health"@,
    ensures
        maintenance_outcome(maintenance, path, token, query) == MaintenanceDecision::Proceed,
{
}

/// In maintenance a request gets through only when a bypass token is set
/// and the request's last `bypass` parameter is that token.
pub proof fn law_bypass_needs_the_token(path: Seq<char>, token: Option<Seq<char>>, query: Option<Seq<char>>)
    ensures
        maintenance_outcome(true, path, token, query) == MaintenanceDecision::Bypassed ==> token is Some
            && query is Some && last_value(form_decode(query->0), "bypass"@) == token,
        maintenance_outcome(true, path, token, query) != MaintenanceDecision::Proceed ==> path != "/health"@,
{
}

/// The pages reached before logging in never ask for authentication and are
/// never a logout.
pub proof fn law_entry_pages_need_no_login(
    requires_auth: Option<bool>,
    path: Seq<char>,
    method: Seq<char>,
    restored: bool,
)
    requires
        is_entry_point(path),
    ensures
        auth_route(requires_auth, path, method, restored) != AuthRoute::Authenticate,
        auth_route(requires_auth, path, method, restored) != AuthRoute::Logout,
{
    reveal_strlit("/logout");
    reveal_strlit("/login");
    reveal_strlit("/2fa");
    reveal_strlit("/register");
    reveal_strlit("/forgot-password");
    reveal_strlit("/reset-password");
    assert(path.len() != "/logout"@.len());
    assert(!is_logout(path, method));
}

/// A route that needs no authentication, or no firewall rule at all, lets
/// every request through.
pub proof fn law_public_routes_pass(requires_auth: Option<bool>, path: Seq<char>, method: Seq<char>, restored: bool)
    requires
        requires_auth != Some(true),
    ensures
        auth_route(requires_auth, path, method, restored) == AuthRoute::PassThrough,
{
}

/// Under a rule that needs authentication: a `POST` or `GET` of `/logout`
/// ends the session; otherwise a restored session lets the request through
/// as its user; otherwise the login, two-factor, registration and password
/// pages pass, and every other request is authenticated.
pub proof fn law_protected_routes(path: Seq<char>, method: Seq<char>, restored: bool)
    ensures
        ({
            let route = auth_route(Some(true), path, method, restored);
            let logout = path == "/logout"@ && (method == "POST"@ || method == "GET"@);
            let entry = path == "/login"@ || path == "/2fa"@ || path == "/register"@ || path
                == "/forgot-password"@ || path == "/reset-password"@;
            &&& logout ==> route == AuthRoute::Logout
            &&& !logout && restored ==> route == AuthRoute::RestoredSession
            &&& !logout && !restored && entry ==> route == AuthRoute::PassThrough
            &&& !logout && !restored && !entry ==> route == AuthRoute::Authenticate
        }),
{
}

/// In maintenance, a request other than the health check gets through when
/// a bypass token is set and the request's last `bypass` parameter is that
/// token; a `bypass` parameter with another value is refused as a bad
/// token, and a request without one is refused plainly.
pub proof fn law_bypass_with_the_token(path: Seq<char>, token: Seq<char>, query: Seq<char>)
    requires
        path != "/health"@,
    ensures
        ({
            let found = last_value(form_decode(query), "bypass"@);
            let outcome = maintenance_outcome(true, path, Some(token), Some(query));
            &&& found == Some(token) ==> outcome == MaintenanceDecision::Bypassed
            &&& (found is Some && found != Some(token)) ==> outcome == (MaintenanceDecision::Blocked {
                bad_token: true,
            })
            &&& found is None ==> outcome == (MaintenanceDecision::Blocked { bad_token: false })
        }),
{
}

/// The profiler records every request in debug mode but its own, whose
/// paths start with `/__clockwork`, and nothing outside debug mode.
pub proof fn law_profiler_tracks(path: Seq<char>, debug: bool)
    ensures
        tracks(path, debug) <==> debug && !(path.len() >= "/__clockwork"@.len() && path.take(
            "/__clockwork"@.len() as int,
        ) == "/__clockwork"@),
{
}

} // verus!

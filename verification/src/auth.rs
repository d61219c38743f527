//! Linking Google Home accounts over OAuth2: what the link, callback and
//! token endpoints check, what they store between requests and where they
//! send the user agent.

use vstd::prelude::*;
use vstd::string::*;

use crate::strings::{self, concat, opt_text, same_text, split_str};
use crate::uri::{
    self, append_query_pair, byte_len, fits_url, host_of_url, parse_url, path_of_url,
    MAX_URL_INPUT,
};

verus! {

broadcast use vstd::string::group_string_axioms;

/// An OAuth2 client as GCP exports it under `web`.
pub struct ClientJsonWeb {
    pub client_id: String,
    pub project_id: String,
    pub auth_uri: String,
    pub token_uri: String,
    pub auth_provider_x509_cert_url: String,
    pub client_secret: String,
}

// ---------------------------------------------------------------------------
// Percent-encoding of a request's query.

/// Bytes that percent-encoding leaves as they are: ASCII letters and digits
/// and `-`, `.`, `_`, `~`.
pub open spec fn is_unreserved(b: u8) -> bool {
    (0x30 <= b <= 0x39) || (0x41 <= b <= 0x5a) || (0x61 <= b <= 0x7a) || b == 0x2d || b == 0x2e
        || b == 0x5f || b == 0x7e
}

/// Upper-case hexadecimal digit of `d`, for `d < 16`.
pub open spec fn hex_digit(d: int) -> char {
    if d < 10 {
        (0x30 + d) as char
    } else {
        (0x37 + d) as char
    }
}

/// Byte `b` as it stands in percent-encoded text.
pub open spec fn escaped_byte(b: u8) -> Seq<char> {
    if is_unreserved(b) {
        seq![b as char]
    } else {
        seq!['%', hex_digit(b as int / 16), hex_digit(b as int % 16)]
    }
}

/// Bytes `bs` percent-encoded one after the other.
pub open spec fn escaped_bytes(bs: Seq<u8>) -> Seq<char>
    decreases bs.len(),
{
    if bs.len() == 0 {
        Seq::empty()
    } else {
        escaped_bytes(bs.drop_last()) + escaped_byte(bs.last())
    }
}

/// `s` percent-encoded over its UTF-8 bytes.
pub open spec fn percent_encoded(s: Seq<char>) -> Seq<char> {
    escaped_bytes(vstd::utf8::encode_utf8(s))
}

/// The bytes of the ASCII text `e`, one per character.
pub open spec fn ascii_bytes(e: Seq<char>) -> Seq<u8> {
    Seq::new(e.len(), |j: int| e[j] as u8)
}

/// The byte of the upper-case hexadecimal digit of `d`.
fn hex_digit_byte(d: u8) -> (h: u8)
    requires
        d < 16,
    ensures
        h == hex_digit(d as int) as u8,
        hex_digit(d as int) <= '\u{7f}',
{
    if d < 10 {
        0x30 + d
    } else {
        0x37 + d
    }
}

/// Percent-encodes `s` over its UTF-8 bytes, as `urlencoding::encode`
/// does: every byte but ASCII letters, digits and `-`, `_`, `.`, `~` is
/// written as `%` and two upper-case hexadecimal digits.
pub fn url_encoded(s: &str) -> (r: String)
    ensures
        r@ == percent_encoded(s@),
{
    let bytes = s.as_bytes();
    let ghost bs = bytes@;
    let mut out: Vec<u8> = Vec::new();
    let ghost mut e: Seq<char> = Seq::empty();
    let mut i: usize = 0;
    assert(bs.take(0) =~= Seq::<u8>::empty());
    while i < bytes.len()
        invariant
            i <= bytes.len(),
            bs == bytes@,
            bs == vstd::utf8::encode_utf8(s@),
            e == escaped_bytes(bs.take(i as int)),
            vstd::utf8::is_ascii_chars(e),
            out@ == ascii_bytes(e),
        decreases bytes.len() - i,
    {
        let b = bytes[i];
        let ghost x = escaped_byte(b);
        if (0x30 <= b && b <= 0x39) || (0x41 <= b && b <= 0x5a) || (0x61 <= b && b <= 0x7a) || b == 0x2d || b == 0x2e
            || b == 0x5f || b == 0x7e {
            out.push(b);
        } else {
            out.push(0x25);
            out.push(hex_digit_byte(b / 16));
            out.push(hex_digit_byte(b % 16));
        }
        proof {
            assert(bs.take(i + 1).drop_last() =~= bs.take(i as int));
            assert(bs.take(i + 1).last() == b);
            e = e + x;
            assert(out@ =~= ascii_bytes(e));
        }
        i = i + 1;
    }
    assert(bs.take(i as int) =~= bs);
    proof {
        vstd::utf8::is_ascii_chars_encode_utf8(e);
        assert(vstd::utf8::encode_utf8(e) =~= out@);
        vstd::utf8::encode_utf8_valid_utf8(e);
        vstd::utf8::encode_utf8_decode_utf8(e);
    }
    match strings::utf8_string(out) {
        Some(r) => r,
        None => String::new(),
    }
}

/// The query of a request as it is carried into links: `?` and the query,
/// both as it came and percent-encoded; two empty texts where the request
/// has no query.
pub fn stringify_query(query: Option<&str>) -> (r: (String, String))
    ensures
        match query {
            Some(q) => r.0@ == "?"@ + q@ && r.1@ == percent_encoded("?"@ + q@),
            None => r.0@ == Seq::<char>::empty() && r.1@ == Seq::<char>::empty(),
        },
{
    match query {
        Some(q) => {
            let decoded = concat("?", q);
            let encoded = url_encoded(decoded.as_str());
            (decoded, encoded)
        },
        None => (String::new(), String::new()),
    }
}

// ---------------------------------------------------------------------------
// The link endpoint.

/// The query of a link request.
pub struct LinkQuery {
    pub client_id: Option<String>,
    pub redirect_uri: Option<String>,
    pub state: Option<String>,
    pub scope: Option<String>,
    pub response_type: Option<String>,
}

/// Hosts that Google Home sends its users back through.
pub open spec fn is_google_redirect_host(h: Seq<char>) -> bool {
    h == "oauth-redirect.googleusercontent.com"@ || h == "oauth-redirect-sandbox.googleusercontent.com"@
}

/// Whether a redirect with path `path` and host `host` leads back to Google
/// Home for project `project_id`: its path is `/r/` and the project, and its
/// host is one of Google's redirect hosts.
pub fn link_redirect_accepted(path: &str, host: Option<&str>, project_id: &str) -> (b: bool)
    ensures
        b == (path@ == "/r/"@ + project_id@ && match host {
            Some(h) => is_google_redirect_host(h@),
            None => false,
        }),
{
    let expected = concat("/r/", project_id);
    if !same_text(path, expected.as_str()) {
        return false;
    }
    match host {
        Some(h) => same_text(h, "oauth-redirect.googleusercontent.com") || same_text(
            h,
            "oauth-redirect-sandbox.googleusercontent.com",
        ),
        None => false,
    }
}

/// The redirect of a link request, as the URL parsed from it, when it leads
/// back to Google Home for `project_id`.
pub open spec fn accepted_redirect(redirect: Seq<char>, project_id: Seq<char>) -> Option<Seq<char>> {
    match uri::url_parse(redirect) {
        Some(u) => {
            if uri::url_path(redirect) == Some("/r/"@ + project_id) && match uri::url_host(redirect) {
                Some(Some(h)) => is_google_redirect_host(h),
                _ => false,
            } {
                Some(u)
            } else {
                None
            }
        },
        None => None,
    }
}

/// Parses the redirect of a link request and keeps it when it leads back to
/// Google Home for `project_id`.
pub fn checked_link_redirect(redirect: &str, project_id: &str) -> (r: Option<String>)
    requires
        byte_len(redirect@) < MAX_URL_INPUT,
    ensures
        opt_text(r) == accepted_redirect(redirect@, project_id@),
{
    let parsed = match parse_url(redirect) {
        Some(u) => u,
        None => return None,
    };
    let path = match path_of_url(redirect) {
        Some(p) => p,
        None => return None,
    };
    let host = match host_of_url(redirect) {
        Some(h) => h,
        None => return None,
    };
    let accepted = match &host {
        Some(h) => link_redirect_accepted(path.as_str(), Some(h.as_str()), project_id),
        None => link_redirect_accepted(path.as_str(), None, project_id),
    };
    if accepted {
        Some(parsed)
    } else {
        None
    }
}

/// `u` with the query pair `name=value` appended, where `u` is a URL short
/// enough to hand to the `url` crate.
pub open spec fn then_pair(u: Option<Seq<char>>, name: Seq<char>, value: Seq<char>) -> Option<Seq<char>> {
    match u {
        Some(x) => {
            if byte_len(x) + byte_len(name) + byte_len(value) < MAX_URL_INPUT {
                uri::url_append_pair(x, name, value)
            } else {
                None
            }
        },
        None => None,
    }
}

/// Appends `name=value` to the query of `u`, as [`then_pair`] says.
fn append_pair_to(u: Option<String>, name: &str, value: &str) -> (r: Option<String>)
    ensures
        opt_text(r) == then_pair(opt_text(u), name@, value@),
{
    match u {
        Some(x) => {
            let a = x.as_str().as_bytes().len();
            let b = name.as_bytes().len();
            let c = value.as_bytes().len();
            if a < MAX_URL_INPUT && b < MAX_URL_INPUT && c < MAX_URL_INPUT && a + b + c
                < MAX_URL_INPUT {
                append_query_pair(x.as_str(), name, value)
            } else {
                None
            }
        },
        None => None,
    }
}

/// The parsed URL of `input`, where it is short enough to hand to the `url`
/// crate.
pub open spec fn parsed(input: Seq<char>) -> Option<Seq<char>> {
    if byte_len(input) < MAX_URL_INPUT {
        uri::url_parse(input)
    } else {
        None
    }
}

/// Parses `input`, as [`parsed`] says.
fn parse_checked(input: &str) -> (r: Option<String>)
    ensures
        opt_text(r) == parsed(input@),
{
    if fits_url(input) {
        parse_url(input)
    } else {
        None
    }
}

/// Where a link request sends the user agent: Google's authorization
/// endpoint `auth_uri`, asking on behalf of `client_id` for an offline
/// `openid` code to be sent to `callback` with `state`, after consent.
pub open spec fn authorization_url(auth_uri: Seq<char>, client_id: Seq<char>, callback: Seq<char>, state: Seq<char>) -> Option<Seq<char>> {
    then_pair(
        then_pair(
            then_pair(
                then_pair(
                    then_pair(
                        then_pair(
                            then_pair(parsed(auth_uri), "client_id"@, client_id),
                            "redirect_uri"@,
                            callback,
                        ),
                        "state"@,
                        state,
                    ),
                    "response_type"@,
                    "code"@,
                ),
                "scope"@,
                "openid"@,
            ),
            "access_type"@,
            "offline"@,
        ),
        "prompt"@,
        "consent"@,
    )
}

/// Builds the authorization URL, as [`authorization_url`] says.
pub fn authorization_location(auth_uri: &str, client_id: &str, callback: &str, state: &str) -> (r: Option<String>)
    ensures
        opt_text(r) == authorization_url(auth_uri@, client_id@, callback@, state@),
{
    let u = parse_checked(auth_uri);
    let u = append_pair_to(u, "client_id", client_id);
    let u = append_pair_to(u, "redirect_uri", callback);
    let u = append_pair_to(u, "state", state);
    let u = append_pair_to(u, "response_type", "code");
    let u = append_pair_to(u, "scope", "openid");
    let u = append_pair_to(u, "access_type", "offline");
    append_pair_to(u, "prompt", "consent")
}

/// What the link endpoint stores under the state of a request: the
/// session of the signed-in user, the redirect back to Google Home and the
/// project, separated by `|`.
pub open spec fn link_verifier(session_id: Seq<char>, redirect: Seq<char>, project_id: Seq<char>) -> Seq<char> {
    session_id + "|"@ + redirect + "|"@ + project_id
}

/// How the link endpoint answers.
pub enum LinkDecision {
    /// Refuse with 401.
    Unauthorized,
    /// Answer 200 with a page showing the query.
    ShowQuery,
    /// Store `verifier` as the code verifier of `state`, then redirect to
    /// `location` (or refuse with 401 where storing fails).
    Store { state: String, verifier: String, location: String },
}

/// [`LinkDecision`] over texts.
pub enum LinkOutcome {
    Unauthorized,
    ShowQuery,
    Store(Seq<char>, Seq<char>, Seq<char>),
}

impl LinkDecision {
    pub open spec fn view(self) -> LinkOutcome {
        match self {
            LinkDecision::Unauthorized => LinkOutcome::Unauthorized,
            LinkDecision::ShowQuery => LinkOutcome::ShowQuery,
            LinkDecision::Store { state, verifier, location } => LinkOutcome::Store(
                state@,
                verifier@,
                location@,
            ),
        }
    }
}

/// How the link endpoint answers a request with query `q`, for Google Home
/// client `home`: `session_valid` says whether the signed-in session checked
/// out, `session_id` is the session cookie and `callback` the callback URL
/// of this server.
pub open spec fn link_outcome(
    session_valid: bool,
    q: LinkQuery,
    home: ClientJsonWeb,
    session_id: Option<Seq<char>>,
    callback: Seq<char>,
) -> LinkOutcome {
    if !session_valid {
        LinkOutcome::Unauthorized
    } else if opt_text(q.client_id) != Some(home.client_id@) {
        LinkOutcome::ShowQuery
    } else {
        match session_id {
            None => LinkOutcome::Unauthorized,
            Some(sid) => match q.redirect_uri {
                None => LinkOutcome::Unauthorized,
                Some(r) => {
                    let red = if byte_len(r@) < MAX_URL_INPUT {
                        accepted_redirect(r@, home.project_id@)
                    } else {
                        None
                    };
                    match (red, q.state) {
                        (Some(red), Some(state)) => match authorization_url(
                            home.auth_uri@,
                            home.client_id@,
                            callback,
                            state@,
                        ) {
                            Some(loc) => LinkOutcome::Store(
                                state@,
                                link_verifier(sid, red, home.project_id@),
                                loc,
                            ),
                            None => LinkOutcome::Unauthorized,
                        },
                        _ => LinkOutcome::Unauthorized,
                    }
                },
            },
        }
    }
}

/// Decides how the link endpoint answers, as [`link_outcome`] says.
pub fn link_decision(
    session_valid: bool,
    q: &LinkQuery,
    home: &ClientJsonWeb,
    session_id: Option<&String>,
    callback: &String,
) -> (d: LinkDecision)
    ensures
        d.view() == link_outcome(
            session_valid,
            *q,
            *home,
            match session_id {
                Some(s) => Some(s@),
                None => None,
            },
            callback@,
        ),
{
    if !session_valid {
        return LinkDecision::Unauthorized;
    }
    let client_matches = match &q.client_id {
        Some(c) => same_text(c.as_str(), home.client_id.as_str()),
        None => false,
    };
    if !client_matches {
        return LinkDecision::ShowQuery;
    }
    let sid = match session_id {
        Some(s) => s,
        None => return LinkDecision::Unauthorized,
    };
    let r = match &q.redirect_uri {
        Some(r) => r,
        None => return LinkDecision::Unauthorized,
    };
    let red = if fits_url(r.as_str()) {
        checked_link_redirect(r.as_str(), home.project_id.as_str())
    } else {
        None
    };
    let red = match red {
        Some(x) => x,
        None => return LinkDecision::Unauthorized,
    };
    let state = match &q.state {
        Some(s) => s,
        None => return LinkDecision::Unauthorized,
    };
    let loc = match authorization_location(
        home.auth_uri.as_str(),
        home.client_id.as_str(),
        callback.as_str(),
        state.as_str(),
    ) {
        Some(l) => l,
        None => return LinkDecision::Unauthorized,
    };
    let mut verifier = concat(sid.as_str(), "|");
    verifier.append(red.as_str());
    verifier.append("|");
    verifier.append(home.project_id.as_str());
    LinkDecision::Store { state: state.clone(), verifier, location: loc }
}

// ---------------------------------------------------------------------------
// The callback endpoint.

/// The query Google's authorization endpoint calls back with.
pub struct CallbackQuery {
    pub code: String,
    pub iss: String,
    pub state: String,
    pub scope: String,
    pub prompt: String,
}

/// Whether a callback comes from Google's accounts issuer after consent.
pub fn callback_query_accepted(q: &CallbackQuery) -> (b: bool)
    ensures
        b == (q.iss@ == "https://accounts.google.com"@ && q.prompt@ == "consent"@),
{
    same_text(q.iss.as_str(), "https://accounts.google.com") && same_text(q.prompt.as_str(), "consent")
}

/// The `i`-th of `p`, where there is one.
pub open spec fn nth_piece(p: Seq<Seq<char>>, i: int) -> Option<Seq<char>> {
    if 0 <= i < p.len() {
        Some(p[i])
    } else {
        None
    }
}

/// What a callback goes on with, given the code verifier stored under its
/// state: the session and the redirect it names, unless there is none or it
/// names another project than `project_id`.
pub open spec fn callback_continuation(verifier: Option<Seq<char>>, project_id: Seq<char>) -> Option<(Seq<char>, Option<Seq<char>>)> {
    match verifier {
        None => None,
        Some(v) => {
            let p = strings::pieces(v, "|"@);
            match nth_piece(p, 2) {
                Some(pid) if pid != project_id => None,
                _ => Some((p[0], nth_piece(p, 1))),
            }
        },
    }
}

/// How a callback goes on once the code verifier of its state is known.
pub enum CallbackPlan {
    /// Refuse with 400.
    Reject,
    /// Invalidate the code verifier of the state and go on with this session
    /// and redirect.
    Continue { session_id: String, redirect_uri: Option<String> },
}

/// Plans a callback, as [`callback_continuation`] says.
pub fn callback_plan(verifier: Option<&String>, project_id: &str) -> (r: CallbackPlan)
    ensures
        callback_continuation(
            match verifier {
                Some(v) => Some(v@),
                None => None,
            },
            project_id@,
        ) == match r {
            CallbackPlan::Reject => None,
            CallbackPlan::Continue { session_id, redirect_uri } => Some(
                (session_id@, opt_text(redirect_uri)),
            ),
        },
{
    let v = match verifier {
        Some(v) => v,
        None => return CallbackPlan::Reject,
    };
    proof {
        reveal_strlit("|");
    }
    let p = split_str(v.as_str(), "|");
    proof {
        assert(strings::strings_view(p@)[0] == p@[0]@);
    }
    if p.len() > 2 && !same_text(p[2].as_str(), project_id) {
        proof {
            assert(strings::strings_view(p@)[2] == p@[2]@);
        }
        return CallbackPlan::Reject;
    }
    let redirect_uri = if p.len() > 1 {
        proof {
            assert(strings::strings_view(p@)[1] == p@[1]@);
        }
        Some(p[1].clone())
    } else {
        None
    };
    if p.len() > 2 {
        proof {
            assert(strings::strings_view(p@)[2] == p@[2]@);
        }
    }
    CallbackPlan::Continue { session_id: p[0].clone(), redirect_uri }
}

/// How a callback ends once the code verifier of its state is invalidated.
pub enum CallbackFinish {
    /// Refuse with 400.
    Reject,
    /// Store `verifier` as the code verifier of `code`, then redirect to
    /// `location`; `None` there means that the stored redirect does not
    /// parse as a URL.
    Store { code: String, verifier: String, location: Option<String> },
}

/// The end of a callback with code `code` and state `state` for
/// `session_id`: with a redirect, the code is remembered with the session
/// and redirect, and the user agent is sent on to the redirect with the code
/// and state appended; without one, the callback is refused.
pub open spec fn callback_end(session_id: Seq<char>, redirect: Option<Seq<char>>, code: Seq<char>, state: Seq<char>) -> Option<(Seq<char>, Seq<char>, Option<Seq<char>>)> {
    match redirect {
        None => None,
        Some(r) => Some(
            (
                code,
                session_id + "|"@ + r,
                then_pair(then_pair(parsed(r), "code"@, code), "state"@, state),
            ),
        ),
    }
}

/// Ends a callback, as [`callback_end`] says.
pub fn callback_finish(session_id: &str, redirect: Option<&String>, code: &str, state: &str) -> (r: CallbackFinish)
    ensures
        callback_end(
            session_id@,
            match redirect {
                Some(x) => Some(x@),
                None => None,
            },
            code@,
            state@,
        ) == match r {
            CallbackFinish::Reject => None,
            CallbackFinish::Store { code, verifier, location } => Some(
                (code@, verifier@, opt_text(location)),
            ),
        },
{
    let red = match redirect {
        Some(r) => r,
        None => return CallbackFinish::Reject,
    };
    let mut verifier = concat(session_id, "|");
    verifier.append(red.as_str());
    let u = parse_checked(red.as_str());
    let u = append_pair_to(u, "code", code);
    let location = append_pair_to(u, "state", state);
    CallbackFinish::Store { code: String::from_str(code), verifier, location }
}

// ---------------------------------------------------------------------------
// The token endpoint.

/// A token request, as Google Home posts it.
pub struct TokenForm {
    pub client_id: String,
    pub client_secret: String,
    pub grant_type: String,
    pub code: Option<String>,
    pub refresh_token: Option<String>,
    pub redirect_uri: String,
}

/// The tokens Google's token endpoint issued.
pub struct IssuedTokens {
    pub access_token: String,
    pub refresh_token: Option<String>,
}

/// Session id under which the tokens issued with `access_token` are kept.
pub open spec fn access_key(access_token: Seq<char>) -> Seq<char> {
    "google_home_auth_token|"@ + access_token
}

/// Session id under which the tokens issued with `refresh_token` are kept.
pub open spec fn refresh_key(refresh_token: Seq<char>) -> Seq<char> {
    "google_home_refresh_token|"@ + refresh_token
}

/// Builds [`access_key`].
pub fn access_session_id(access_token: &str) -> (k: String)
    ensures
        k@ == access_key(access_token@),
{
    concat("google_home_auth_token|", access_token)
}

/// Builds [`refresh_key`].
pub fn refresh_session_id(refresh_token: &str) -> (k: String)
    ensures
        k@ == refresh_key(refresh_token@),
{
    concat("google_home_refresh_token|", refresh_token)
}

/// Access-token sessions and refresh-token sessions never share an id, and
/// each id names one token.
pub proof fn lemma_token_keys_distinct(a: Seq<char>, b: Seq<char>)
    ensures
        access_key(a) != refresh_key(b),
        access_key(a) == access_key(b) ==> a == b,
        refresh_key(a) == refresh_key(b) ==> a == b,
{
    reveal_strlit("google_home_auth_token|");
    reveal_strlit("google_home_refresh_token|");
    assert(access_key(a)[12] == 'a');
    assert(refresh_key(b)[12] == 'r');
    if access_key(a) == access_key(b) {
        assert(a =~= access_key(a).skip(23));
        assert(b =~= access_key(b).skip(23));
    }
    if refresh_key(a) == refresh_key(b) {
        assert(a =~= refresh_key(a).skip(26));
        assert(b =~= refresh_key(b).skip(26));
    }
}

/// Minutes a refresh-token session is kept: a year.
pub const REFRESH_SESSION_MINUTES: i64 = 525600;

/// Where a token request stands.
pub enum TokenStage {
    /// Nothing done yet.
    Begin,
    /// The code verifier of `code` is being looked up.
    CodeLookup { code: String },
    /// The session of `refresh_token` is being looked up.
    RefreshLookup { refresh_token: String },
    /// A code is being invalidated after a bad request; it will be refused.
    Discard,
    /// The code verifier of `code`, naming `session_id` and `redirect`, is
    /// being invalidated.
    CodeSpent { code: String, session_id: String, redirect: String },
    /// The linking session is being looked up.
    SessionLookup { code: String, session_id: String, redirect: String },
    /// The linking session is being validated.
    Validation { code: String, session_id: String, redirect: String },
    /// Tokens for a code are being requested.
    LinkTokens { session_id: String },
    /// The issued tokens are being stored under the access token.
    AccessStored { session_id: String, refresh_token: Option<String> },
    /// The issued tokens are being stored under the refresh token `key`.
    RefreshStored { session_id: String, key: String },
    /// The refresh-token session is being extended.
    LinkExtended { session_id: String },
    /// The linking session is being ended.
    LinkEnded,
    /// Tokens for a refresh token are being requested.
    RefreshTokens { key: String },
    /// The refreshed session is being stored.
    RefreshedStored { key: String },
    /// The refreshed session is being extended.
    RefreshExtended,
    /// Answered.
    Done,
}

/// What the outside work of the last step came to.
pub enum TokenEvent {
    /// The request arrived.
    Start,
    /// The code verifier found for the code, if the lookup succeeded and
    /// found one.
    CodeFound(Option<String>),
    /// The session found, by its refresh token, if the lookup succeeded and
    /// found one.
    SessionFound(Option<Option<String>>),
    /// Whether the session's id token checked out.
    Validated(bool),
    /// The tokens issued, if the request succeeded.
    Issued(Option<IssuedTokens>),
    /// Whether the write succeeded.
    Written(bool),
}

/// What to do next for a token request.
pub enum TokenStep {
    /// Look up the code verifier of the code.
    LookupCode(String),
    /// Look up the session with this id.
    LookupSession(String),
    /// Invalidate the code verifier of the code.
    InvalidateCode(String),
    /// Validate the id token of the session just looked up.
    ValidateSession,
    /// Post this form to Google's token endpoint.
    RequestTokens(Vec<(String, String)>),
    /// Store the issued tokens, with the linking session's id token, under
    /// this session id.
    StoreIssued(String),
    /// Store the looked-up session with the issued access token and expiry
    /// under this session id.
    StoreRefreshed(String),
    /// Extend the session with this id by this many minutes.
    Extend(String, i64),
    /// End the session with this id.
    EndSession(String),
    /// Answer 200 with the issued tokens.
    Grant,
    /// Answer 400 with `invalid_grant`.
    Refuse,
}

/// [`TokenStage`] over texts.
pub enum StageView {
    Begin,
    CodeLookup(Seq<char>),
    RefreshLookup(Seq<char>),
    Discard,
    CodeSpent(Seq<char>, Seq<char>, Seq<char>),
    SessionLookup(Seq<char>, Seq<char>, Seq<char>),
    Validation(Seq<char>, Seq<char>, Seq<char>),
    LinkTokens(Seq<char>),
    AccessStored(Seq<char>, Option<Seq<char>>),
    RefreshStored(Seq<char>, Seq<char>),
    LinkExtended(Seq<char>),
    LinkEnded,
    RefreshTokens(Seq<char>),
    RefreshedStored(Seq<char>),
    RefreshExtended,
    Done,
}

/// [`TokenEvent`] over texts.
pub enum EventView {
    Start,
    CodeFound(Option<Seq<char>>),
    SessionFound(Option<Option<Seq<char>>>),
    Validated(bool),
    Issued(Option<(Seq<char>, Option<Seq<char>>)>),
    Written(bool),
}

/// [`TokenStep`] over texts.
pub enum StepView {
    LookupCode(Seq<char>),
    LookupSession(Seq<char>),
    InvalidateCode(Seq<char>),
    ValidateSession,
    RequestTokens(Seq<(Seq<char>, Seq<char>)>),
    StoreIssued(Seq<char>),
    StoreRefreshed(Seq<char>),
    Extend(Seq<char>, i64),
    EndSession(Seq<char>),
    Grant,
    Refuse,
}

impl TokenStage {
    pub open spec fn view(self) -> StageView {
        match self {
            TokenStage::Begin => StageView::Begin,
            TokenStage::CodeLookup { code } => StageView::CodeLookup(code@),
            TokenStage::RefreshLookup { refresh_token } => StageView::RefreshLookup(refresh_token@),
            TokenStage::Discard => StageView::Discard,
            TokenStage::CodeSpent { code, session_id, redirect } => StageView::CodeSpent(
                code@,
                session_id@,
                redirect@,
            ),
            TokenStage::SessionLookup { code, session_id, redirect } => StageView::SessionLookup(
                code@,
                session_id@,
                redirect@,
            ),
            TokenStage::Validation { code, session_id, redirect } => StageView::Validation(
                code@,
                session_id@,
                redirect@,
            ),
            TokenStage::LinkTokens { session_id } => StageView::LinkTokens(session_id@),
            TokenStage::AccessStored { session_id, refresh_token } => StageView::AccessStored(
                session_id@,
                opt_text(refresh_token),
            ),
            TokenStage::RefreshStored { session_id, key } => StageView::RefreshStored(
                session_id@,
                key@,
            ),
            TokenStage::LinkExtended { session_id } => StageView::LinkExtended(session_id@),
            TokenStage::LinkEnded => StageView::LinkEnded,
            TokenStage::RefreshTokens { key } => StageView::RefreshTokens(key@),
            TokenStage::RefreshedStored { key } => StageView::RefreshedStored(key@),
            TokenStage::RefreshExtended => StageView::RefreshExtended,
            TokenStage::Done => StageView::Done,
        }
    }
}

impl TokenEvent {
    pub open spec fn view(self) -> EventView {
        match self {
            TokenEvent::Start => EventView::Start,
            TokenEvent::CodeFound(v) => EventView::CodeFound(opt_text(v)),
            TokenEvent::SessionFound(s) => EventView::SessionFound(
                match s {
                    Some(r) => Some(opt_text(r)),
                    None => None,
                },
            ),
            TokenEvent::Validated(b) => EventView::Validated(b),
            TokenEvent::Issued(t) => EventView::Issued(
                match t {
                    Some(t) => Some((t.access_token@, opt_text(t.refresh_token))),
                    None => None,
                },
            ),
            TokenEvent::Written(b) => EventView::Written(b),
        }
    }
}

/// The pairs of a form, as texts.
pub open spec fn pairs_view(v: Seq<(String, String)>) -> Seq<(Seq<char>, Seq<char>)> {
    Seq::new(v.len(), |i: int| (v[i].0@, v[i].1@))
}

impl TokenStep {
    pub open spec fn view(self) -> StepView {
        match self {
            TokenStep::LookupCode(c) => StepView::LookupCode(c@),
            TokenStep::LookupSession(s) => StepView::LookupSession(s@),
            TokenStep::InvalidateCode(c) => StepView::InvalidateCode(c@),
            TokenStep::ValidateSession => StepView::ValidateSession,
            TokenStep::RequestTokens(f) => StepView::RequestTokens(pairs_view(f@)),
            TokenStep::StoreIssued(k) => StepView::StoreIssued(k@),
            TokenStep::StoreRefreshed(k) => StepView::StoreRefreshed(k@),
            TokenStep::Extend(k, m) => StepView::Extend(k@, m),
            TokenStep::EndSession(s) => StepView::EndSession(s@),
            TokenStep::Grant => StepView::Grant,
            TokenStep::Refuse => StepView::Refuse,
        }
    }
}

/// Whether a token request comes from the Google Home client `home`.
pub open spec fn from_client(f: TokenForm, home: ClientJsonWeb) -> bool {
    f.client_id@ == home.client_id@ && f.client_secret@ == home.client_secret@
}

/// The form that exchanges `code` for tokens, naming `callback` as the
/// redirect the code was issued for.
pub open spec fn code_exchange_form(home: ClientJsonWeb, code: Seq<char>, callback: Seq<char>) -> Seq<(Seq<char>, Seq<char>)> {
    seq![
        ("grant_type"@, "authorization_code"@),
        ("code"@, code),
        ("redirect_uri"@, callback),
        ("client_id"@, home.client_id@),
        ("client_secret"@, home.client_secret@),
    ]
}

/// The form that exchanges `refresh_token` for a new access token.
pub open spec fn refresh_form(home: ClientJsonWeb, refresh_token: Seq<char>) -> Seq<(Seq<char>, Seq<char>)> {
    seq![
        ("grant_type"@, "refresh_token"@),
        ("refresh_token"@, refresh_token),
        ("client_id"@, home.client_id@),
        ("client_secret"@, home.client_secret@),
    ]
}

/// Refuse and stop.
pub open spec fn refused() -> (StageView, StepView) {
    (StageView::Done, StepView::Refuse)
}

/// The first step of a token request: a request from another client is
/// refused; an authorization code is looked up; a refresh token has its
/// session looked up; anything else is refused.
pub open spec fn token_start(f: TokenForm, home: ClientJsonWeb) -> (StageView, StepView) {
    if !from_client(f, home) {
        refused()
    } else if f.grant_type@ == "authorization_code"@ && f.code is Some {
        (StageView::CodeLookup(f.code->0@), StepView::LookupCode(f.code->0@))
    } else if f.grant_type@ == "refresh_token"@ && f.refresh_token is Some {
        (
            StageView::RefreshLookup(f.refresh_token->0@),
            StepView::LookupSession(refresh_key(f.refresh_token->0@)),
        )
    } else {
        refused()
    }
}

/// The steps that redeem an authorization code. Its verifier names the
/// linking session and the redirect; the code is spent at once, the
/// session must exist and check out, and the redirect must be the one the
/// request names. The issued tokens are then stored under the access
/// token and under the refresh token, the latter kept for a year, and the
/// linking session ends.
pub open spec fn link_next(f: TokenForm, home: ClientJsonWeb, callback: Seq<char>, st: StageView, ev: EventView) -> (StageView, StepView) {
    match (st, ev) {
        (StageView::CodeLookup(code), EventView::CodeFound(Some(v))) => {
            let p = strings::pieces(v, "|"@);
            match nth_piece(p, 1) {
                None => (StageView::Discard, StepView::InvalidateCode(code)),
                Some(r) => (StageView::CodeSpent(code, p[0], r), StepView::InvalidateCode(code)),
            }
        },
        (StageView::CodeSpent(code, sid, r), EventView::Written(true)) => (
            StageView::SessionLookup(code, sid, r),
            StepView::LookupSession(sid),
        ),
        (StageView::SessionLookup(code, sid, r), EventView::SessionFound(Some(_))) => (
            StageView::Validation(code, sid, r),
            StepView::ValidateSession,
        ),
        (StageView::Validation(code, sid, r), EventView::Validated(true)) => {
            if r != f.redirect_uri@ {
                (StageView::Discard, StepView::InvalidateCode(code))
            } else {
                (
                    StageView::LinkTokens(sid),
                    StepView::RequestTokens(code_exchange_form(home, code, callback)),
                )
            }
        },
        (StageView::LinkTokens(sid), EventView::Issued(Some((access, refresh)))) => (
            StageView::AccessStored(sid, refresh),
            StepView::StoreIssued(access_key(access)),
        ),
        (StageView::AccessStored(sid, Some(refresh)), EventView::Written(true)) => (
            StageView::RefreshStored(sid, refresh_key(refresh)),
            StepView::StoreIssued(refresh_key(refresh)),
        ),
        (StageView::RefreshStored(sid, key), EventView::Written(true)) => (
            StageView::LinkExtended(sid),
            StepView::Extend(key, REFRESH_SESSION_MINUTES),
        ),
        (StageView::LinkExtended(sid), EventView::Written(true)) => (
            StageView::LinkEnded,
            StepView::EndSession(sid),
        ),
        (StageView::LinkEnded, EventView::Written(true)) => (StageView::Done, StepView::Grant),
        _ => refused(),
    }
}

/// The steps that redeem a refresh token: its session must hold that very
/// refresh token; the session then takes the new access token and expiry
/// and is kept for another year.
pub open spec fn refresh_next(home: ClientJsonWeb, st: StageView, ev: EventView) -> (StageView, StepView) {
    match (st, ev) {
        (StageView::RefreshLookup(rt), EventView::SessionFound(Some(Some(stored)))) => {
            if stored == rt {
                (
                    StageView::RefreshTokens(refresh_key(rt)),
                    StepView::RequestTokens(refresh_form(home, stored)),
                )
            } else {
                refused()
            }
        },
        (StageView::RefreshTokens(key), EventView::Issued(Some(_))) => (
            StageView::RefreshedStored(key),
            StepView::StoreRefreshed(key),
        ),
        (StageView::RefreshedStored(key), EventView::Written(true)) => (
            StageView::RefreshExtended,
            StepView::Extend(key, REFRESH_SESSION_MINUTES),
        ),
        (StageView::RefreshExtended, EventView::Written(true)) => (StageView::Done, StepView::Grant),
        _ => refused(),
    }
}

/// The next stage and step of a token request with form `f` for the Google
/// Home client `home`, whose authorization codes were issued for `callback`.
pub open spec fn token_next(f: TokenForm, home: ClientJsonWeb, callback: Seq<char>, st: StageView, ev: EventView) -> (StageView, StepView) {
    match st {
        StageView::Begin => match ev {
            EventView::Start => token_start(f, home),
            _ => refused(),
        },
        StageView::Discard => refused(),
        StageView::RefreshLookup(_) | StageView::RefreshTokens(_) | StageView::RefreshedStored(_)
        | StageView::RefreshExtended => refresh_next(home, st, ev),
        StageView::Done => refused(),
        _ => link_next(f, home, callback, st, ev),
    }
}

/// A pair of texts.
fn text_pair(a: &str, b: &str) -> (p: (String, String))
    ensures
        p.0@ == a@,
        p.1@ == b@,
{
    (String::from_str(a), String::from_str(b))
}

/// Builds [`code_exchange_form`].
fn code_exchange(home: &ClientJsonWeb, code: &String, callback: &String) -> (v: Vec<(String, String)>)
    ensures
        pairs_view(v@) == code_exchange_form(*home, code@, callback@),
{
    let mut v: Vec<(String, String)> = Vec::new();
    v.push(text_pair("grant_type", "authorization_code"));
    v.push(text_pair("code", code.as_str()));
    v.push(text_pair("redirect_uri", callback.as_str()));
    v.push(text_pair("client_id", home.client_id.as_str()));
    v.push(text_pair("client_secret", home.client_secret.as_str()));
    assert(pairs_view(v@) =~= code_exchange_form(*home, code@, callback@));
    v
}

/// Builds [`refresh_form`].
fn refresh_exchange(home: &ClientJsonWeb, refresh_token: &String) -> (v: Vec<(String, String)>)
    ensures
        pairs_view(v@) == refresh_form(*home, refresh_token@),
{
    let mut v: Vec<(String, String)> = Vec::new();
    v.push(text_pair("grant_type", "refresh_token"));
    v.push(text_pair("refresh_token", refresh_token.as_str()));
    v.push(text_pair("client_id", home.client_id.as_str()));
    v.push(text_pair("client_secret", home.client_secret.as_str()));
    assert(pairs_view(v@) =~= refresh_form(*home, refresh_token@));
    v
}

/// Stage and step pair for a refusal.
fn refuse() -> (r: (TokenStage, TokenStep))
    ensures
        (r.0.view(), r.1.view()) == refused(),
{
    (TokenStage::Done, TokenStep::Refuse)
}

/// Takes the first step, as [`token_start`] says.
fn start_step(f: &TokenForm, home: &ClientJsonWeb) -> (r: (TokenStage, TokenStep))
    ensures
        (r.0.view(), r.1.view()) == token_start(*f, *home),
{
    if !(same_text(f.client_id.as_str(), home.client_id.as_str()) && same_text(
        f.client_secret.as_str(),
        home.client_secret.as_str(),
    )) {
        return refuse();
    }
    if same_text(f.grant_type.as_str(), "authorization_code") {
        if let Some(code) = &f.code {
            return (TokenStage::CodeLookup { code: code.clone() }, TokenStep::LookupCode(code.clone()));
        }
    }
    if same_text(f.grant_type.as_str(), "refresh_token") {
        if let Some(rt) = &f.refresh_token {
            return (
                TokenStage::RefreshLookup { refresh_token: rt.clone() },
                TokenStep::LookupSession(refresh_session_id(rt.as_str())),
            );
        }
    }
    refuse()
}

/// Takes a step of redeeming a code, as [`link_next`] says.
#[verifier::rlimit(40)]
fn link_step(f: &TokenForm, home: &ClientJsonWeb, callback: &String, st: TokenStage, ev: TokenEvent) -> (r: (TokenStage, TokenStep))
    ensures
        (r.0.view(), r.1.view()) == link_next(*f, *home, callback@, st.view(), ev.view()),
{
    match (st, ev) {
        (TokenStage::CodeLookup { code }, TokenEvent::CodeFound(Some(v))) => {
            proof {
                reveal_strlit("|");
            }
            let p = split_str(v.as_str(), "|");
            proof {
                assert(strings::strings_view(p@)[0] == p@[0]@);
            }
            if p.len() > 1 {
                proof {
                    assert(strings::strings_view(p@)[1] == p@[1]@);
                }
                (
                    TokenStage::CodeSpent { code: code.clone(), session_id: p[0].clone(), redirect: p[1].clone() },
                    TokenStep::InvalidateCode(code),
                )
            } else {
                (TokenStage::Discard, TokenStep::InvalidateCode(code))
            }
        },
        (TokenStage::CodeSpent { code, session_id, redirect }, TokenEvent::Written(true)) => {
            let sid = session_id.clone();
            (TokenStage::SessionLookup { code, session_id, redirect }, TokenStep::LookupSession(sid))
        },
        (TokenStage::SessionLookup { code, session_id, redirect }, TokenEvent::SessionFound(Some(_))) => {
            (TokenStage::Validation { code, session_id, redirect }, TokenStep::ValidateSession)
        },
        (TokenStage::Validation { code, session_id, redirect }, TokenEvent::Validated(true)) => {
            if !same_text(redirect.as_str(), f.redirect_uri.as_str()) {
                (TokenStage::Discard, TokenStep::InvalidateCode(code))
            } else {
                let form = code_exchange(home, &code, callback);
                (TokenStage::LinkTokens { session_id }, TokenStep::RequestTokens(form))
            }
        },
        (TokenStage::LinkTokens { session_id }, TokenEvent::Issued(Some(t))) => {
            let key = access_session_id(t.access_token.as_str());
            (TokenStage::AccessStored { session_id, refresh_token: t.refresh_token }, TokenStep::StoreIssued(key))
        },
        (TokenStage::AccessStored { session_id, refresh_token: Some(rt) }, TokenEvent::Written(true)) => {
            let key = refresh_session_id(rt.as_str());
            let k2 = key.clone();
            (TokenStage::RefreshStored { session_id, key }, TokenStep::StoreIssued(k2))
        },
        (TokenStage::RefreshStored { session_id, key }, TokenEvent::Written(true)) => {
            (TokenStage::LinkExtended { session_id }, TokenStep::Extend(key, REFRESH_SESSION_MINUTES))
        },
        (TokenStage::LinkExtended { session_id }, TokenEvent::Written(true)) => {
            (TokenStage::LinkEnded, TokenStep::EndSession(session_id))
        },
        (TokenStage::LinkEnded, TokenEvent::Written(true)) => (TokenStage::Done, TokenStep::Grant),
        _ => refuse(),
    }
}

/// Takes a step of redeeming a refresh token, as [`refresh_next`] says.
fn refresh_step(home: &ClientJsonWeb, st: TokenStage, ev: TokenEvent) -> (r: (TokenStage, TokenStep))
    ensures
        (r.0.view(), r.1.view()) == refresh_next(*home, st.view(), ev.view()),
{
    match (st, ev) {
        (TokenStage::RefreshLookup { refresh_token }, TokenEvent::SessionFound(Some(Some(stored)))) => {
            if same_text(stored.as_str(), refresh_token.as_str()) {
                let form = refresh_exchange(home, &stored);
                (
                    TokenStage::RefreshTokens { key: refresh_session_id(refresh_token.as_str()) },
                    TokenStep::RequestTokens(form),
                )
            } else {
                refuse()
            }
        },
        (TokenStage::RefreshTokens { key }, TokenEvent::Issued(Some(_))) => {
            let k2 = key.clone();
            (TokenStage::RefreshedStored { key }, TokenStep::StoreRefreshed(k2))
        },
        (TokenStage::RefreshedStored { key }, TokenEvent::Written(true)) => {
            (TokenStage::RefreshExtended, TokenStep::Extend(key, REFRESH_SESSION_MINUTES))
        },
        (TokenStage::RefreshExtended, TokenEvent::Written(true)) => (TokenStage::Done, TokenStep::Grant),
        _ => refuse(),
    }
}

/// Takes the next step of a token request with form `f` for the Google Home
/// client `home`, whose codes were issued for `callback`, as [`token_next`]
/// says.
pub fn token_step(f: &TokenForm, home: &ClientJsonWeb, callback: &String, st: TokenStage, ev: TokenEvent) -> (r: (TokenStage, TokenStep))
    ensures
        (r.0.view(), r.1.view()) == token_next(*f, *home, callback@, st.view(), ev.view()),
{
    match st {
        TokenStage::Begin => match ev {
            TokenEvent::Start => start_step(f, home),
            _ => refuse(),
        },
        TokenStage::Discard => refuse(),
        TokenStage::Done => refuse(),
        TokenStage::RefreshLookup { .. } | TokenStage::RefreshTokens { .. }
        | TokenStage::RefreshedStored { .. } | TokenStage::RefreshExtended => refresh_step(home, st, ev),
        _ => link_step(f, home, callback, st, ev),
    }
}

// ---------------------------------------------------------------------------
// Endpoints derived from the redirect base, and the login page.

/// The URLs the OAuth2 flows use, derived once from the redirect base.
pub struct AuthEndpoints {
    /// The redirect base itself, as parsed.
    pub base: String,
    /// Path of the redirect base.
    pub base_path: String,
    /// Where Google sends linking codes: `google_home/callback` under the base.
    pub link_callback: String,
    /// Where Google sends sign-in codes: `auth/callback` under the base.
    pub login_callback: String,
    /// Path users land on after signing out: that of `google_home` under the base.
    pub logout_path: String,
}

/// The endpoints under redirect base `base`, where every URL involved
/// parses and resolves.
pub open spec fn endpoints_of(base: Seq<char>) -> Option<(Seq<char>, Seq<char>, Seq<char>, Seq<char>, Seq<char>)> {
    if byte_len(base) + byte_len("google_home/callback"@) < MAX_URL_INPUT {
        match (
            uri::url_parse(base),
            uri::url_path(base),
            uri::url_join(base, "google_home/callback"@),
            uri::url_join(base, "auth/callback"@),
            uri::url_join(base, "google_home"@),
        ) {
            (Some(b), Some(p), Some(link), Some(login), Some(home)) => {
                if byte_len(home) < MAX_URL_INPUT {
                    match uri::url_path(home) {
                        Some(logout) => Some((b, p, link, login, logout)),
                        None => None,
                    }
                } else {
                    None
                }
            },
            _ => None,
        }
    } else {
        None
    }
}

/// Derives the endpoints under `base`, as [`endpoints_of`] says.
pub fn auth_endpoints(base: &str) -> (r: Option<AuthEndpoints>)
    ensures
        match r {
            Some(e) => endpoints_of(base@) == Some(
                (e.base@, e.base_path@, e.link_callback@, e.login_callback@, e.logout_path@),
            ),
            None => endpoints_of(base@) is None,
        },
{
    proof {
        reveal_strlit("google_home/callback");
        reveal_strlit("auth/callback");
        reveal_strlit("google_home");
        assert(byte_len("auth/callback"@) <= byte_len("google_home/callback"@)) by {
            vstd::utf8::is_ascii_chars_encode_utf8("auth/callback"@);
            vstd::utf8::is_ascii_chars_encode_utf8("google_home/callback"@);
            vstd::utf8::is_ascii_chars_encode_utf8("google_home"@);
        }
        assert(byte_len("google_home"@) <= byte_len("google_home/callback"@)) by {
            vstd::utf8::is_ascii_chars_encode_utf8("google_home/callback"@);
            vstd::utf8::is_ascii_chars_encode_utf8("google_home"@);
        }
    }
    let a = base.as_bytes().len();
    let b = "google_home/callback".as_bytes().len();
    if !(a < MAX_URL_INPUT && b < MAX_URL_INPUT && a + b < MAX_URL_INPUT) {
        return None;
    }
    let parsed = parse_url(base);
    let path = path_of_url(base);
    let link = uri::join_url(base, "google_home/callback");
    let login = uri::join_url(base, "auth/callback");
    let home = uri::join_url(base, "google_home");
    match (parsed, path, link, login, home) {
        (Some(b), Some(p), Some(link), Some(login), Some(home)) => {
            if !fits_url(home.as_str()) {
                return None;
            }
            match path_of_url(home.as_str()) {
                Some(logout) => Some(
                    AuthEndpoints {
                        base: b,
                        base_path: p,
                        link_callback: link,
                        login_callback: login,
                        logout_path: logout,
                    },
                ),
                None => None,
            }
        },
        _ => None,
    }
}

/// The page for a signed-in user `email` whose session expires at
/// `expires`, offering to link Google Home (carrying the query `query`
/// over) and to sign out; `query_debug` shows the query parameters.
pub open spec fn signed_in_page(email: Seq<char>, expires: Seq<char>, base: Seq<char>, query: Seq<char>, query_debug: Seq<char>) -> Seq<char> {
    "\n                            Hello World for Google Home ("@ + email + "): expires "@ + expires
        + "\n                            <br />\n                            <a href='"@ + base
        + "google_home/link"@ + query
        + "'>Authorize Link</a>\n                            <br />\n                            <a href='"@
        + base
        + "auth/logout'>Logout</a>\n                            <br />\n                            <pre><code>"@
        + query_debug + "</code></pre>\n                        "@
}

/// The page for a visitor who is not signed in: a sign-in link that comes
/// back to this page with the percent-encoded query `encoded_query`.
pub open spec fn sign_in_page(base: Seq<char>, base_path: Seq<char>, encoded_query: Seq<char>) -> Seq<char> {
    "\n                    <a href='"@ + base + "auth?redirect="@ + base_path + "google_home"@
        + encoded_query
        + "'>\n                        GOOGLE LOGIN\n                    </a>\n                    "@
}

/// Expiry shown for a session without one.
pub open spec fn no_expiry() -> Seq<char> {
    "(no expiry)"@
}

/// The login page: for a signed-in user, `email` and the session's
/// `expires` (or "(no expiry)"); otherwise the sign-in link. The request's
/// query is `query` and its parameters read `query_debug`.
pub open spec fn login_page_text(
    signed_in: Option<(Seq<char>, Option<Seq<char>>)>,
    base: Seq<char>,
    base_path: Seq<char>,
    query: Option<Seq<char>>,
    query_debug: Seq<char>,
) -> Seq<char> {
    let decoded = match query {
        Some(q) => "?"@ + q,
        None => Seq::empty(),
    };
    let encoded = match query {
        Some(q) => percent_encoded("?"@ + q),
        None => Seq::empty(),
    };
    match signed_in {
        Some((email, expires)) => signed_in_page(
            email,
            match expires {
                Some(e) => e,
                None => no_expiry(),
            },
            base,
            decoded,
            query_debug,
        ),
        None => sign_in_page(base, base_path, encoded),
    }
}

/// Writes the login page, as [`login_page_text`] says.
pub fn login_page(
    signed_in: Option<(&str, Option<&str>)>,
    ends: &AuthEndpoints,
    query: Option<&str>,
    query_debug: &str,
) -> (page: String)
    ensures
        page@ == login_page_text(
            match signed_in {
                Some((e, x)) => Some(
                    (
                        e@,
                        match x {
                            Some(x) => Some(x@),
                            None => None,
                        },
                    ),
                ),
                None => None,
            },
            ends.base@,
            ends.base_path@,
            match query {
                Some(q) => Some(q@),
                None => None,
            },
            query_debug@,
        ),
{
    let (decoded, encoded) = stringify_query(query);
    match signed_in {
        Some((email, expires)) => {
            let mut page = String::from_str("\n                            Hello World for Google Home (");
            page.append(email);
            page.append("): expires ");
            match expires {
                Some(e) => page.append(e),
                None => page.append("(no expiry)"),
            }
            page.append("\n                            <br />\n                            <a href='");
            page.append(ends.base.as_str());
            page.append("google_home/link");
            page.append(decoded.as_str());
            page.append("'>Authorize Link</a>\n                            <br />\n                            <a href='");
            page.append(ends.base.as_str());
            page.append("auth/logout'>Logout</a>\n                            <br />\n                            <pre><code>");
            page.append(query_debug);
            page.append("</code></pre>\n                        ");
            page
        },
        None => {
            let mut page = String::from_str("\n                    <a href='");
            page.append(ends.base.as_str());
            page.append("auth?redirect=");
            page.append(ends.base_path.as_str());
            page.append("google_home");
            page.append(encoded.as_str());
            page.append("'>\n                        GOOGLE LOGIN\n                    </a>\n                    ");
            page
        },
    }
}

// ---------------------------------------------------------------------------
// What one endpoint stores, the next reads back.

/// Whether `s` holds no `|`.
pub open spec fn no_bar(s: Seq<char>) -> bool {
    forall|i: int| 0 <= i < s.len() ==> s[i] != '|'
}

/// Text without `|` is one piece.
proof fn lemma_split_plain(s: Seq<char>, cur: Seq<char>)
    requires
        no_bar(s),
    ensures
        strings::split_from(s, "|"@, cur) == seq![cur + s],
    decreases s.len(),
{
    reveal_strlit("|");
    if s.len() == 0 {
        assert(cur + s =~= cur);
    } else {
        assert(s.subrange(0, 1) != "|"@) by {
            assert(s.subrange(0, 1)[0] == s[0]);
        }
        lemma_split_plain(s.skip(1), cur.push(s[0]));
        assert(cur.push(s[0]) + s.skip(1) =~= cur + s);
    }
}

/// Text without `|`, then `|`, then the rest, splits into that text and the
/// pieces of the rest.
proof fn lemma_split_first(a: Seq<char>, rest: Seq<char>, cur: Seq<char>)
    requires
        no_bar(a),
    ensures
        strings::split_from(a + "|"@ + rest, "|"@, cur) == seq![cur + a] + strings::split_from(
            rest,
            "|"@,
            Seq::empty(),
        ),
    decreases a.len(),
{
    reveal_strlit("|");
    let t = a + "|"@ + rest;
    if a.len() == 0 {
        assert(t.subrange(0, 1) =~= "|"@);
        assert(t.skip(1) =~= rest);
        assert(cur + a =~= cur);
    } else {
        assert(t.subrange(0, 1) != "|"@) by {
            assert(t.subrange(0, 1)[0] == a[0]);
        }
        assert(t.skip(1) =~= a.skip(1) + "|"@ + rest);
        assert(t[0] == a[0]);
        lemma_split_first(a.skip(1), rest, cur.push(a[0]));
        assert(cur.push(a[0]) + a.skip(1) =~= cur + a);
    }
}

/// The pieces of `a|b|c` where none of the three holds `|`.
proof fn lemma_three_pieces(a: Seq<char>, b: Seq<char>, c: Seq<char>)
    requires
        no_bar(a),
        no_bar(b),
        no_bar(c),
    ensures
        strings::pieces(a + "|"@ + b + "|"@ + c, "|"@) == seq![a, b, c],
{
    let e = Seq::<char>::empty();
    assert(a + "|"@ + b + "|"@ + c =~= a + "|"@ + (b + "|"@ + c));
    lemma_split_first(a, b + "|"@ + c, e);
    lemma_split_first(b, c, e);
    lemma_split_plain(c, e);
    assert(e + a =~= a);
    assert(e + b =~= b);
    assert(e + c =~= c);
    assert(seq![a] + (seq![b] + seq![c]) =~= seq![a, b, c]);
}

/// The pieces of `a|b` where neither holds `|`.
proof fn lemma_two_pieces(a: Seq<char>, b: Seq<char>)
    requires
        no_bar(a),
        no_bar(b),
    ensures
        strings::pieces(a + "|"@ + b, "|"@) == seq![a, b],
{
    let e = Seq::<char>::empty();
    lemma_split_first(a, b, e);
    lemma_split_plain(b, e);
    assert(e + a =~= a);
    assert(e + b =~= b);
    assert(seq![a] + seq![b] =~= seq![a, b]);
}

/// What the link endpoint stores under a state, the callback for that state
/// reads back: the same session and redirect, and a project that passes its
/// check (for a session id, redirect and project without `|`).
pub proof fn lemma_link_verifier_read_back(session_id: Seq<char>, redirect: Seq<char>, project_id: Seq<char>)
    requires
        no_bar(session_id),
        no_bar(redirect),
        no_bar(project_id),
    ensures
        callback_continuation(Some(link_verifier(session_id, redirect, project_id)), project_id) == Some(
            (session_id, Some(redirect)),
        ),
{
    lemma_three_pieces(session_id, redirect, project_id);
}

/// What the callback stores under a code, the token endpoint reads back
/// when the code is redeemed: it spends the code and goes on with the same
/// session and redirect (for a session id and redirect without `|`).
pub proof fn lemma_callback_verifier_read_back(
    f: TokenForm,
    home: ClientJsonWeb,
    callback: Seq<char>,
    session_id: Seq<char>,
    redirect: Seq<char>,
    code: Seq<char>,
    state: Seq<char>,
)
    requires
        no_bar(session_id),
        no_bar(redirect),
    ensures
        callback_end(session_id, Some(redirect), code, state) matches Some((c, v, _)) && token_next(
            f,
            home,
            callback,
            StageView::CodeLookup(c),
            EventView::CodeFound(Some(v)),
        ) == (StageView::CodeSpent(code, session_id, redirect), StepView::InvalidateCode(code)),
{
    lemma_two_pieces(session_id, redirect);
}

/// The token endpoint's guards: only requests from the Google Home client
/// get past the first step; a refresh token is exchanged only when its
/// session holds that very token; a code is exchanged only after its
/// session checked out and for the redirect it was issued to; the linking
/// session is looked up only once its code is spent; tokens are granted
/// only after the last write of a run succeeded.
pub proof fn lemma_token_guards(f: TokenForm, home: ClientJsonWeb, callback: Seq<char>, st: StageView, ev: EventView)
    ensures
        st == StageView::Begin && token_next(f, home, callback, st, ev).1 != StepView::Refuse ==> from_client(f, home),
        (st matches StageView::RefreshLookup(rt) && token_next(f, home, callback, st, ev).1 is RequestTokens) ==> ev
            == EventView::SessionFound(Some(Some(st->RefreshLookup_0))),
        (st is Validation && token_next(f, home, callback, st, ev).1 is RequestTokens) ==> ev == EventView::Validated(true)
            && st->Validation_2 == f.redirect_uri@,
        token_next(f, home, callback, st, ev).1 == StepView::Grant ==> ev == EventView::Written(true) && (st
            == StageView::LinkEnded || st == StageView::RefreshExtended),
        (st is CodeSpent && token_next(f, home, callback, st, ev).1 is LookupSession) ==> ev == EventView::Written(
            true,
        ),
        (token_next(f, home, callback, st, ev).1 is LookupSession) ==> (st == StageView::Begin || st is CodeSpent),
{
}

/// The stage a token request reaches after the first `k` events of `evs`,
/// starting from [`StageView::Begin`].
pub open spec fn stage_after(f: TokenForm, home: ClientJsonWeb, callback: Seq<char>, evs: Seq<EventView>, k: nat) -> StageView
    decreases k,
{
    if k == 0 {
        StageView::Begin
    } else {
        token_next(f, home, callback, stage_after(f, home, callback, evs, (k - 1) as nat), evs[k - 1]).0
    }
}

/// The step a token request takes on the event `evs[k]`; the outcome of
/// that step's outside work is the next event, `evs[k + 1]`.
pub open spec fn step_at(f: TokenForm, home: ClientJsonWeb, callback: Seq<char>, evs: Seq<EventView>, k: nat) -> StepView {
    token_next(f, home, callback, stage_after(f, home, callback, evs, k), evs[k as int]).1
}

/// A request that reached the linking session of `code` deleted the code's
/// verifier earlier in the same run, and that deletion succeeded.
proof fn lemma_code_spent_in_run(f: TokenForm, home: ClientJsonWeb, callback: Seq<char>, evs: Seq<EventView>, k: nat, code: Seq<char>)
    requires
        k <= evs.len(),
        (stage_after(f, home, callback, evs, k) matches StageView::SessionLookup(c, _, _) && c == code)
            || (stage_after(f, home, callback, evs, k) matches StageView::Validation(c, _, _) && c == code),
    ensures
        exists|j: nat|
            j + 1 < k && #[trigger] step_at(f, home, callback, evs, j) == StepView::InvalidateCode(code) && evs[j + 1int]
                == EventView::Written(true),
    decreases k,
{
    let prev = stage_after(f, home, callback, evs, (k - 1) as nat);
    if stage_after(f, home, callback, evs, k) is Validation {
        lemma_code_spent_in_run(f, home, callback, evs, (k - 1) as nat, code);
    } else {
        assert(prev is CodeSpent && prev->CodeSpent_0 == code && evs[k - 1] == EventView::Written(true));
        let j = (k - 2) as nat;
        let before = stage_after(f, home, callback, evs, j);
        assert(before == StageView::CodeLookup(code));
        assert(step_at(f, home, callback, evs, j) == StepView::InvalidateCode(code));
        assert(evs[j + 1int] == EventView::Written(true));
    }
}

/// An authorization code is redeemed at most once. In any run of a token
/// request, the code is sent to Google's token endpoint only after the
/// run deleted the code's verifier and that deletion succeeded; a later
/// request with the same code then finds no verifier and is refused
/// without any token being asked for.
pub proof fn lemma_code_redeemed_once(
    f: TokenForm,
    home: ClientJsonWeb,
    callback: Seq<char>,
    evs: Seq<EventView>,
    k: nat,
    code: Seq<char>,
)
    requires
        k < evs.len(),
    ensures
        step_at(f, home, callback, evs, k) == StepView::RequestTokens(code_exchange_form(home, code, callback))
            ==> exists|j: nat|
            j + 1 < k && #[trigger] step_at(f, home, callback, evs, j) == StepView::InvalidateCode(code) && evs[j + 1int]
                == EventView::Written(true),
        token_next(f, home, callback, StageView::CodeLookup(code), EventView::CodeFound(None)) == refused(),
{
    let st = stage_after(f, home, callback, evs, k);
    if step_at(f, home, callback, evs, k) == StepView::RequestTokens(code_exchange_form(home, code, callback)) {
        if st is RefreshLookup {
            let rt = st->RefreshLookup_0;
            assert(refresh_form(home, rt).len() != code_exchange_form(home, code, callback).len());
        }
        assert(st is Validation);
        assert(code_exchange_form(home, st->Validation_0, callback)[1].1 == st->Validation_0);
        assert(st->Validation_0 == code);
        lemma_code_spent_in_run(f, home, callback, evs, k, code);
    }
}

/// A link request is stored only for a session that checked out, from the
/// Google Home client, with a redirect back to Google Home for the project
/// and with a state.
pub proof fn lemma_link_store_guarded(
    session_valid: bool,
    q: LinkQuery,
    home: ClientJsonWeb,
    session_id: Option<Seq<char>>,
    callback: Seq<char>,
)
    ensures
        link_outcome(session_valid, q, home, session_id, callback) is Store ==> {
            &&& session_valid
            &&& opt_text(q.client_id) == Some(home.client_id@)
            &&& session_id is Some
            &&& q.state is Some
            &&& q.redirect_uri matches Some(r) && accepted_redirect(r@, home.project_id@) is Some
        },
{
}


// ---------------------------------------------------------------------------
// ID tokens.

/// What the node reads of an ID token: the key id of its header, its
/// subject, its email and its audience.
pub struct JwtClaims {
    pub kid: Option<String>,
    pub sub: String,
    pub email: Option<String>,
    pub aud: Vec<String>,
}

/// [`JwtClaims`] over texts.
pub struct ClaimsView {
    pub kid: Option<Seq<char>>,
    pub sub: Seq<char>,
    pub email: Option<Seq<char>>,
    pub aud: Seq<Seq<char>>,
}

impl View for JwtClaims {
    type V = ClaimsView;

    open spec fn view(&self) -> ClaimsView {
        ClaimsView {
            kid: opt_text(self.kid),
            sub: self.sub@,
            email: opt_text(self.email),
            aud: strings::strings_view(self.aud@),
        }
    }
}

/// The key id, subject, email and audience of the ID token `token`, read
/// without checking its signature; `None` when it does not decode.
pub uninterp spec fn jwt_unverified(token: Seq<char>) -> Option<ClaimsView>;

/// Claims taken by their view.
pub open spec fn claims_view(c: Option<JwtClaims>) -> Option<ClaimsView> {
    match c {
        Some(c) => Some(c@),
        None => None,
    }
}

/// Reads `token` with `axum_oidc_client::jwt::decode_jwt_unverified`, which
/// decodes a JWT's header and claims without checking its signature. Its
/// result depends on the token alone and is named `jwt_unverified`.
#[verifier::external_body]
fn unverified_claims(token: &str) -> (r: Option<JwtClaims>)
    ensures
        claims_view(r) == jwt_unverified(token@),
{
    match axum_oidc_client::jwt::decode_jwt_unverified(token) {
        Ok((header, claims)) => Some(
            JwtClaims { kid: header.kid, sub: claims.sub, email: claims.email, aud: claims.aud },
        ),
        Err(_) => None,
    }
}

/// The algorithms a session's ID token may be signed with.
#[derive(Clone, Copy, PartialEq, Eq, Structural)]
pub enum SigningAlgorithm {
    /// RSA with SHA-256, which Google signs its ID tokens with.
    Rs256,
}

/// Whether the token's header names `algorithm` and its signature verifies
/// under the RSA public key in the PEM text `pem`: the part of
/// `decode_jwt`'s check that does not read the clock.
pub uninterp spec fn jwt_signature_checks(token: Seq<char>, pem: Seq<char>, algorithm: SigningAlgorithm) -> bool;

/// Whether an audience claim `aud` names one of the audiences `accepted`.
pub open spec fn audience_accepted(aud: Seq<Seq<char>>, accepted: Seq<Seq<char>>) -> bool {
    exists|i: int, j: int| 0 <= i < aud.len() && 0 <= j < accepted.len() && aud[i] == accepted[j]
}

/// Checks `token` with `axum_oidc_client::jwt::decode_jwt` against the RSA
/// public key in the PEM text `pem` (read with `DecodingKey::from_rsa_pem`),
/// for the signing algorithm `algorithm` and the audiences `audience`, and
/// gives the email of its claims. The check reads the clock (expiry), so
/// which tokens pass is left unsaid: `None` when the key or the token is
/// refused. Stated is what holds of every token that passes:
/// - its header names `algorithm` and its signature verifies under the key
///   (`jwt_signature_checks`, a function of the token, the PEM text and the
///   algorithm);
/// - `decode_jwt` takes the claims from the same part of the token, decoded
///   the same way, as `decode_jwt_unverified`, so the email given is the
///   one `jwt_unverified` reads;
/// - its audience claim, which `OidcClaims` requires (a string or an array
///   of strings), names one of `audience`: `Validation::set_audience` turns
///   on the check that an audience claim shares a member with the list.
#[verifier::external_body]
fn checked_token_email(token: &str, pem: &str, algorithm: SigningAlgorithm, audience: &Vec<String>) -> (r: Option<
    Option<String>,
>)
    ensures
        r matches Some(e) ==> {
            &&& jwt_unverified(token@) matches Some(c)
            &&& c.email == opt_text(e)
            &&& audience_accepted(c.aud, strings::strings_view(audience@))
            &&& jwt_signature_checks(token@, pem@, algorithm)
        },
{
    let key = axum_oidc_client::jwt::DecodingKey::from_rsa_pem(pem.as_bytes()).ok()?;
    let algorithm = match algorithm {
        SigningAlgorithm::Rs256 => axum_oidc_client::jwt::Algorithm::RS256,
    };
    let mut validation = axum_oidc_client::jwt::Validation::new(algorithm);
    validation.set_audience(audience);
    axum_oidc_client::jwt::decode_jwt(token, &key, &validation).ok().map(|data| data.claims.email)
}

/// Why a session's ID token was not accepted.
#[derive(Clone, Copy, Debug, PartialEq, Eq, Structural)]
pub enum SessionError {
    /// The token does not decode.
    Malformed,
    /// Its header names no key.
    NoKeyId,
    /// No certificate is known for its key.
    UnknownKey,
    /// Its signature, audience or lifetime does not check out.
    Invalid,
    /// It carries no email.
    NoEmail,
}

/// The key id in the header of the ID token `id_token`, read without
/// checking the token.
pub fn token_key_id(id_token: &str) -> (r: Option<String>)
    ensures
        opt_text(r) == match jwt_unverified(id_token@) {
            Some(c) => c.kid,
            None => None,
        },
{
    match unverified_claims(id_token) {
        Some(c) => c.kid,
        None => None,
    }
}

/// The subject of the ID token `id_token`, read without checking the
/// token: the user a session belongs to.
pub fn session_subject(id_token: &str) -> (r: Option<String>)
    ensures
        opt_text(r) == match jwt_unverified(id_token@) {
            Some(c) => Some(c.sub),
            None => None,
        },
{
    match unverified_claims(id_token) {
        Some(c) => Some(c.sub),
        None => None,
    }
}

/// What a session's check gives once the token has been checked against
/// its certificate: `checked` is `None` when the check failed, else the
/// email the token carries.
pub fn session_outcome(checked: Option<Option<String>>) -> (r: Result<String, SessionError>)
    ensures
        match checked {
            None => r == Err::<String, SessionError>(SessionError::Invalid),
            Some(None) => r == Err::<String, SessionError>(SessionError::NoEmail),
            Some(Some(e)) => r matches Ok(s) && s@ == e@,
        },
{
    match checked {
        None => Err(SessionError::Invalid),
        Some(None) => Err(SessionError::NoEmail),
        Some(Some(e)) => Ok(e),
    }
}

/// The email of the user a session's ID token `id_token` names, once the
/// token is checked against `pem`, the certificate of the key its header
/// names (`None` when no certificate is known for it), for the audiences
/// `audience` and the RS256 signature Google uses. A token that does not
/// decode, names no key or names a key without a certificate is refused
/// before any check; a token that passes is signed with RS256 under `pem`,
/// is meant for one of `audience` and gives the email it carries.
pub fn validated_email(id_token: &str, pem: Option<&str>, audience: &Vec<String>) -> (r: Result<String, SessionError>)
    ensures
        r == Err::<String, SessionError>(SessionError::Malformed) <==> jwt_unverified(id_token@) is None,
        r == Err::<String, SessionError>(SessionError::NoKeyId) <==> (jwt_unverified(id_token@) matches Some(c)
            && c.kid is None),
        r == Err::<String, SessionError>(SessionError::UnknownKey) <==> (jwt_unverified(id_token@) matches Some(c)
            && c.kid is Some && pem is None),
        r matches Ok(e) ==> {
            &&& jwt_unverified(id_token@) matches Some(c)
            &&& c.kid is Some
            &&& c.email == Some(e@)
            &&& audience_accepted(c.aud, strings::strings_view(audience@))
            &&& pem matches Some(p) && jwt_signature_checks(id_token@, p@, SigningAlgorithm::Rs256)
        },
        r == Err::<String, SessionError>(SessionError::NoEmail) ==> (jwt_unverified(id_token@) matches Some(c)
            && c.kid is Some && pem is Some && c.email is None),
        r == Err::<String, SessionError>(SessionError::Invalid) ==> (jwt_unverified(id_token@) matches Some(c)
            && c.kid is Some && pem is Some),
{
    let claims = match unverified_claims(id_token) {
        Some(c) => c,
        None => return Err(SessionError::Malformed),
    };
    if claims.kid.is_none() {
        return Err(SessionError::NoKeyId);
    }
    let pem = match pem {
        Some(p) => p,
        None => return Err(SessionError::UnknownKey),
    };
    session_outcome(checked_token_email(id_token, pem, SigningAlgorithm::Rs256, audience))
}

} // verus!

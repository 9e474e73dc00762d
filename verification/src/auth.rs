//! Signing in through the browser, and signing out.
//!
//! The browser is sent to the login page of the remote service and comes back through a
//! link of the scheme `z8` that carries the session token. The token is kept only after the
//! remote service has accepted a request made with it.

use crate::clock::{is_success, status_is_success};
use crate::commands::{CommandError, CommandErrorView};
use crate::state::AppState;
use crate::text::{equals, is_prefix, join, starts_with, strip_trailing, text_view, trim_end};
use vstd::prelude::*;
use vstd::string::StringSliceAdditionalSpecFns;

verus! {

/// Whether the form encoding leaves the byte as it is.
pub open spec fn kept_as_is(b: u8) -> bool {
    ||| b == 0x2a
    ||| b == 0x2d
    ||| b == 0x2e
    ||| b == 0x5f
    ||| 0x30 <= b <= 0x39
    ||| 0x41 <= b <= 0x5a
    ||| 0x61 <= b <= 0x7a
}

/// The digit for `n` in base sixteen, in upper case.
pub open spec fn hex_digit(n: u8) -> char {
    if n < 10 {
        (0x30 + n) as char
    } else {
        (0x41 + n - 10) as char
    }
}

/// The form encoding of one byte: letters, digits and `*-._` stay, a space becomes `+`, and
/// any other byte becomes `%` and its two digits in base sixteen.
pub open spec fn form_encoded_byte(b: u8) -> Seq<char> {
    if kept_as_is(b) {
        seq![b as char]
    } else if b == 0x20 {
        seq!['+']
    } else {
        seq!['%', hex_digit(b / 16), hex_digit(b % 16)]
    }
}

/// The form encoding of a sequence of bytes: the encodings of its bytes, one after another.
pub open spec fn form_encoded(bytes: Seq<u8>) -> Seq<char>
    decreases bytes.len(),
{
    if bytes.len() == 0 {
        Seq::empty()
    } else {
        form_encoded(bytes.drop_last()) + form_encoded_byte(bytes.last())
    }
}

/// The scheme of the absolute URL that `text` holds; `None` where `text` holds none.
pub uninterp spec fn url_scheme(text: Seq<char>) -> Option<Seq<char>>;

/// The pairs of name and value in the query of the absolute URL that `text` holds, decoded
/// and in their order; `None` where `text` holds no such URL.
pub uninterp spec fn url_query_pairs(text: Seq<char>) -> Option<Seq<(Seq<char>, Seq<char>)>>;

/// The views of pairs of texts.
pub open spec fn pairs_view(pairs: Seq<(String, String)>) -> Seq<(Seq<char>, Seq<char>)> {
    pairs.map_values(|p: (String, String)| (p.0@, p.1@))
}

/// Encodes the bytes of `text` with `url::form_urlencoded::byte_serialize` and joins the
/// pieces. The contract states the encoding byte by byte, as the serializer makes it.
#[verifier::external_body]
fn form_urlencode(text: &str) -> (encoded: String)
    ensures
        encoded@ == form_encoded(text.spec_bytes()),
{
    url::form_urlencoded::byte_serialize(text.as_bytes()).collect()
}

/// Reads `text` with `url::Url::parse` and returns what `Url::scheme` gives for it. The
/// contract names the result and claims nothing else of it.
#[verifier::external_body]
fn parse_url_scheme(text: &str) -> (scheme: Option<String>)
    ensures
        text_view(scheme) == url_scheme(text@),
{
    match url::Url::parse(text) {
        Ok(parsed) => Some(parsed.scheme().to_string()),
        Err(_) => None,
    }
}

/// Reads `text` with `url::Url::parse` and returns the pairs that `Url::query_pairs` gives
/// for it, in their order. The contract names the result and claims nothing else of it.
#[verifier::external_body]
fn parse_url_query_pairs(text: &str) -> (pairs: Option<Vec<(String, String)>>)
    ensures
        match pairs {
            Some(found) => url_query_pairs(text@) == Some(pairs_view(found@)),
            None => url_query_pairs(text@) is None,
        },
{
    match url::Url::parse(text) {
        Ok(parsed) => Some(parsed.query_pairs().into_owned().collect()),
        Err(_) => None,
    }
}

/// The value of the first pair named `name`, if there is one.
pub open spec fn first_value(pairs: Seq<(Seq<char>, Seq<char>)>, name: Seq<char>) -> Option<
    Seq<char>,
>
    decreases pairs.len(),
{
    if pairs.len() == 0 {
        None
    } else if pairs[0].0 == name {
        Some(pairs[0].1)
    } else {
        first_value(pairs.drop_first(), name)
    }
}

/// The value of the first pair named `name`, if there is one.
pub fn find_value(pairs: &Vec<(String, String)>, name: &str) -> (value: Option<String>)
    ensures
        text_view(value) == first_value(pairs_view(pairs@), name@),
{
    let ghost all = pairs_view(pairs@);
    let mut i: usize = 0;
    assert(all.skip(0) =~= all);
    while i < pairs.len()
        invariant
            i <= pairs.len(),
            all == pairs_view(pairs@),
            first_value(all, name@) == first_value(all.skip(i as int), name@),
        decreases pairs.len() - i,
    {
        assert(all.skip(i as int)[0] == all[i as int]);
        assert(all[i as int] == (pairs@[i as int].0@, pairs@[i as int].1@));
        if equals(pairs[i].0.as_str(), name) {
            return Some(pairs[i].1.clone());
        }
        assert(all.skip(i as int).drop_first() =~= all.skip(i + 1));
        i += 1;
    }
    assert(all.skip(i as int).len() == 0);
    None
}

/// The session token that a link carries, where `scheme` and `pairs` are the scheme and
/// the query of the link: the link is of the scheme `z8`, and the token is the value of the
/// first pair named `token`.
pub open spec fn spec_token_of(
    scheme: Option<Seq<char>>,
    pairs: Option<Seq<(Seq<char>, Seq<char>)>>,
) -> Option<Seq<char>> {
    if scheme == Some("z8"@) {
        match pairs {
            Some(found) => first_value(found, "token"@),
            None => None,
        }
    } else {
        None
    }
}

/// The views of an optional list of pairs.
pub open spec fn query_view(pairs: Option<Vec<(String, String)>>) -> Option<
    Seq<(Seq<char>, Seq<char>)>,
> {
    match pairs {
        Some(found) => Some(pairs_view(found@)),
        None => None,
    }
}

/// The session token that a link carries, where `scheme` and `pairs` are the scheme and
/// the query that were read from the link.
pub fn token_of(scheme: Option<String>, pairs: Option<Vec<(String, String)>>) -> (token: Option<
    String,
>)
    ensures
        text_view(token) == spec_token_of(text_view(scheme), query_view(pairs)),
{
    match scheme {
        Some(name) => {
            if !equals(name.as_str(), "z8") {
                return None;
            }
        },
        None => {
            return None;
        },
    }
    match pairs {
        Some(found) => find_value(&found, "token"),
        None => None,
    }
}

/// The session token that the link `link` carries; `None` where `link` is no link of the
/// scheme `z8` or carries no token.
pub fn link_token(link: &str) -> (token: Option<String>)
    ensures
        text_view(token) == spec_token_of(url_scheme(link@), url_query_pairs(link@)),
{
    let scheme = parse_url_scheme(link);
    let pairs = parse_url_query_pairs(link);
    token_of(scheme, pairs)
}

/// The session token that an argument of the command line carries: the argument must
/// begin with `z8://` and be a link that carries a token.
pub open spec fn spec_deep_link_token(argument: Seq<char>) -> Option<Seq<char>> {
    if is_prefix(argument, "z8://"@) {
        spec_token_of(url_scheme(argument), url_query_pairs(argument))
    } else {
        None
    }
}

/// The session token that the argument `argument` of the command line carries; `None`
/// where the argument does not begin with `z8://`, is no link, or carries no token.
pub fn deep_link_token(argument: &str) -> (token: Option<String>)
    ensures
        text_view(token) == spec_deep_link_token(argument@),
{
    if starts_with(argument, "z8://") {
        link_token(argument)
    } else {
        None
    }
}

/// The link through which the browser comes back after the login.
pub const CALLBACK_URL: &'static str = "z8://auth/callback";

/// The address of the login page of the service at `webapp_url`.
pub open spec fn spec_oauth_url(webapp_url: Seq<char>) -> Seq<char> {
    strip_trailing(webapp_url, '/') + "/api/auth/desktop-login?redirect="@ + form_encoded(
        CALLBACK_URL.spec_bytes(),
    )
}

/// The address of the login page of the service at `webapp_url`, which sends the browser
/// back through `CALLBACK_URL`.
pub fn oauth_url(webapp_url: &str) -> (url: String)
    ensures
        url@ == spec_oauth_url(webapp_url@),
{
    let base = trim_end(webapp_url, '/');
    let page = join(base.as_str(), "/api/auth/desktop-login?redirect=");
    let redirect = form_urlencode(CALLBACK_URL);
    join(page.as_str(), redirect.as_str())
}

/// Starts the login: the address to open in the browser, or `NotConfigured` where no
/// remote service is configured.
pub fn initiate_oauth(state: &AppState) -> (r: Result<String, CommandError>)
    ensures
        match r {
            Ok(url) => state.is_configured() && url@ == spec_oauth_url(
                state.settings.webapp_url@,
            ),
            Err(e) => !state.is_configured() && e@ == CommandErrorView::NotConfigured,
        },
{
    if state.settings.webapp_url.as_str().is_empty() {
        Err(CommandError::NotConfigured)
    } else {
        Ok(oauth_url(state.settings.webapp_url.as_str()))
    }
}

/// Why a login did not go through.
#[derive(Clone, Copy, Debug, PartialEq, Eq, Structural)]
pub enum AuthError {
    /// No remote service is configured.
    NotConfigured,
    /// The remote service did not accept the token.
    TokenRejected,
}

impl AuthError {
    /// The message that the error is reported with.
    pub fn message(&self) -> (text: &'static str)
        ensures
            text@ == match self {
                AuthError::NotConfigured => "Webapp URL not configured"@,
                AuthError::TokenRejected => "Token validation failed"@,
            },
    {
        match self {
            AuthError::NotConfigured => "Webapp URL not configured",
            AuthError::TokenRejected => "Token validation failed",
        }
    }
}

/// Takes up the token that the browser has brought back: before it is kept, it must be
/// tried on the remote service, which must be configured.
pub fn begin_oauth_callback(state: &AppState) -> (r: Result<(), AuthError>)
    ensures
        r == if state.is_configured() {
            Ok::<(), AuthError>(())
        } else {
            Err::<(), AuthError>(AuthError::NotConfigured)
        },
{
    if state.settings.webapp_url.as_str().is_empty() {
        Err(AuthError::NotConfigured)
    } else {
        Ok(())
    }
}

/// Ends the login with the status that the remote service gave to a request made with
/// `token`: after a status of success the token becomes the session token, after any other
/// the state stays and the token is refused.
pub fn handle_oauth_callback(state: &mut AppState, token: String, status: u16) -> (r: Result<
    (),
    AuthError,
>)
    ensures
        if is_success(status) {
            &&& r is Ok
            &&& *final(state) == AppState { session_token: Some(token), ..*old(state) }
        } else {
            &&& r == Err::<(), AuthError>(AuthError::TokenRejected)
            &&& *final(state) == *old(state)
        },
{
    if status_is_success(status) {
        state.set_session_token(Some(token));
        Ok(())
    } else {
        Err(AuthError::TokenRejected)
    }
}

/// Signs the user out: the session token is dropped and the clock state is back at its
/// start, clocked out.
pub fn logout(state: &mut AppState)
    ensures
        *final(state) == (AppState {
            session_token: None,
            is_clocked_in: false,
            ..*old(state)
        }),
{
    state.set_session_token(None);
    state.set_clocked_in(false);
}

} // verus!

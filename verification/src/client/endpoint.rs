//! The server address a worker is started with: it must be a URI with a
//! websocket scheme.
use vstd::prelude::*;

use crate::kit::text::{bracketed, bracketed_text};

verus! {

/// The scheme of `url` read as a URI: `None` when it is no URI,
/// `Some(None)` when it has no scheme.
pub uninterp spec fn url_scheme(url: Seq<char>) -> Option<Option<Seq<char>>>;

/// Parses `url` with `http::Uri`'s `FromStr` and reads `scheme_str`. The
/// contract names the outcome `url_scheme(url)`, a function of the text
/// alone.
#[verifier::external_body]
fn parse_scheme(url: &str) -> (r: Option<Option<String>>)
    ensures
        match r {
            Some(Some(s)) => url_scheme(url@) == Some(Some(s@)),
            Some(None) => url_scheme(url@) == Some(None::<Seq<char>>),
            None => url_scheme(url@) is None,
        },
{
    match url.parse::<tokio_tungstenite::tungstenite::http::Uri>() {
        Ok(u) => Some(u.scheme_str().map(|s| s.to_string())),
        Err(_) => None,
    }
}

/// Why a server address is refused.
#[derive(Debug, Clone, PartialEq)]
pub enum UrlError {
    /// it is no URI
    Invalid,
    /// it has no scheme
    NoScheme,
    /// its scheme is neither `ws` nor `wss`
    Unsupported(String),
}

/// The text of the refusal of address `url`.
pub open spec fn url_error_text(e: UrlError, url: Seq<char>) -> Seq<char> {
    match e {
        UrlError::Invalid => bracketed("invalid url "@, url),
        UrlError::NoScheme => "url has no scheme"@,
        UrlError::Unsupported(s) => bracketed("unsupported scheme "@, s@),
    }
}

impl UrlError {
    /// Why address `url` is refused, as text.
    pub fn message(&self, url: &str) -> (r: String)
        ensures
            r@ == url_error_text(*self, url@),
    {
        match self {
            UrlError::Invalid => bracketed_text("invalid url ", url),
            UrlError::NoScheme => "url has no scheme".to_owned(),
            UrlError::Unsupported(s) => bracketed_text("unsupported scheme ", s.as_str()),
        }
    }
}

/// `c` and `l` are the same letter, `l` being lower case.
pub open spec fn same_letter(c: char, l: char) -> bool {
    c == l || c as int == l as int - 32
}

/// `s` is `ws` or `wss` with ASCII case ignored.
pub open spec fn is_ws_scheme(s: Seq<char>) -> bool {
    &&& 2 <= s.len() <= 3
    &&& same_letter(s[0], 'w')
    &&& same_letter(s[1], 's')
    &&& s.len() == 3 ==> same_letter(s[2], 's')
}

fn letter_is(c: char, lower: char, upper: char) -> (r: bool)
    requires
        upper as int == lower as int - 32,
    ensures
        r == same_letter(c, lower),
{
    c == lower || c == upper
}

/// Whether `s` names a websocket scheme, `ws` or `wss` in any case.
pub fn ws_scheme(s: &str) -> (r: bool)
    ensures
        r == is_ws_scheme(s@),
{
    let n = s.unicode_len();
    if n < 2 || n > 3 {
        return false;
    }
    if !letter_is(s.get_char(0), 'w', 'W') || !letter_is(s.get_char(1), 's', 'S') {
        return false;
    }
    if n == 3 {
        letter_is(s.get_char(2), 's', 'S')
    } else {
        true
    }
}

/// The verdict on a parsed address: it must be a URI with a scheme, and
/// the scheme must be `ws` or `wss`.
pub fn check_scheme(parsed: Option<Option<String>>) -> (r: Result<(), UrlError>)
    ensures
        match parsed {
            None => r == Err::<(), UrlError>(UrlError::Invalid),
            Some(None) => r == Err::<(), UrlError>(UrlError::NoScheme),
            Some(Some(s)) => if is_ws_scheme(s@) {
                r is Ok
            } else {
                r == Err::<(), UrlError>(UrlError::Unsupported(s))
            },
        },
{
    match parsed {
        None => Err(UrlError::Invalid),
        Some(None) => Err(UrlError::NoScheme),
        Some(Some(s)) => {
            if ws_scheme(s.as_str()) {
                Ok(())
            } else {
                Err(UrlError::Unsupported(s))
            }
        },
    }
}

/// Checks the address a worker is started with.
pub fn check_url(url: &str) -> (r: Result<(), UrlError>)
    ensures
        match url_scheme(url@) {
            None => r == Err::<(), UrlError>(UrlError::Invalid),
            Some(None) => r == Err::<(), UrlError>(UrlError::NoScheme),
            Some(Some(s)) => if is_ws_scheme(s) {
                r is Ok
            } else {
                r matches Err(UrlError::Unsupported(t)) && t@ == s
            },
        },
{
    check_scheme(parse_scheme(url))
}

} // verus!

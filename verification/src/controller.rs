//! The address of a controller: its base URL, and the URLs of the
//! WebSocket endpoints it streams from, with the `url` crate resolving and
//! rewriting them.

use vstd::prelude::*;

use crate::text::{concat, str_eq};

verus! {

/// The controller URL with a trailing slash, so that endpoints resolve
/// below it.
pub open spec fn base_spec(url: Seq<char>) -> Seq<char> {
    if url.len() > 0 && url.last() == '/' {
        url
    } else {
        url + "/"@
    }
}

/// The controller URL with a trailing slash; see [`base_spec`].
pub fn controller_base(url: &str) -> (r: String)
    ensures
        r@ == base_spec(url@),
{
    let n = url.unicode_len();
    if n > 0 && url.get_char(n - 1) == '/' {
        url.to_owned()
    } else {
        concat(url, "/")
    }
}

/// What `url::Url::parse(base)` and then `join(endpoint)` give: the URL as
/// the parser writes it and its scheme, or nothing when either step fails.
pub uninterp spec fn url_join(base: Seq<char>, endpoint: Seq<char>) -> Option<(Seq<char>, Seq<char>)>;

/// What `url::Url::set_scheme` gives for the URL written `url`: the URL
/// written with the new scheme, or nothing when the parser refuses the
/// change.
pub uninterp spec fn url_with_scheme(url: Seq<char>, scheme: Seq<char>) -> Option<Seq<char>>;

/// What appending the query pair `key=value` with
/// `url::Url::query_pairs_mut().append_pair` gives for the URL written
/// `url`, or nothing when `url` does not parse.
pub uninterp spec fn url_with_pair(url: Seq<char>, key: Seq<char>, value: Seq<char>) -> Option<Seq<char>>;

/// Resolves `endpoint` against `base` with `url::Url::parse` and
/// `Url::join`; the named result [`url_join`].
#[verifier::external_body]
fn join_url(base: &str, endpoint: &str) -> (r: Option<(String, String)>)
    ensures
        url_join(base@, endpoint@) == (match r {
            Some((u, s)) => Some((u@, s@)),
            None => None::<(Seq<char>, Seq<char>)>,
        }),
{
    let url = url::Url::parse(base).ok()?.join(endpoint).ok()?;
    Some((url.to_string(), url.scheme().to_owned()))
}

/// Changes the scheme of a URL with `url::Url::set_scheme`; the named
/// result [`url_with_scheme`].
#[verifier::external_body]
fn set_url_scheme(url: &str, scheme: &str) -> (r: Option<String>)
    ensures
        url_with_scheme(url@, scheme@) == (match r {
            Some(u) => Some(u@),
            None => None::<Seq<char>>,
        }),
{
    let mut u = url::Url::parse(url).ok()?;
    u.set_scheme(scheme).ok()?;
    Some(u.to_string())
}

/// Appends a query pair with `url::Url::query_pairs_mut().append_pair`;
/// the named result [`url_with_pair`].
#[verifier::external_body]
fn append_query_pair(url: &str, key: &str, value: &str) -> (r: Option<String>)
    ensures
        url_with_pair(url@, key@, value@) == (match r {
            Some(u) => Some(u@),
            None => None::<Seq<char>>,
        }),
{
    let mut u = url::Url::parse(url).ok()?;
    u.query_pairs_mut().append_pair(key, value);
    Some(u.to_string())
}

/// The URL of a request to `endpoint` of the controller at `controller`:
/// the endpoint resolved below the controller's base URL.
pub open spec fn request_spec(controller: Seq<char>, endpoint: Seq<char>) -> Option<Seq<char>> {
    match url_join(base_spec(controller), endpoint) {
        Some((u, _)) => Some(u),
        None => None,
    }
}

/// The URL of a request to an endpoint of a controller; see
/// [`request_spec`].
pub fn request_url(controller: &str, endpoint: &str) -> (r: Option<String>)
    ensures
        request_spec(controller@, endpoint@) == (match r {
            Some(u) => Some(u@),
            None => None::<Seq<char>>,
        }),
{
    let base = controller_base(controller);
    match join_url(base.as_str(), endpoint) {
        Some((u, _)) => Some(u),
        None => None,
    }
}

/// The WebSocket scheme for a URL scheme: `ws` for `http` and `ws`, `wss`
/// for `https` and `wss`, none for any other.
pub open spec fn ws_scheme(scheme: Seq<char>) -> Option<Seq<char>> {
    if scheme == "http"@ || scheme == "ws"@ {
        Some("ws"@)
    } else if scheme == "https"@ || scheme == "wss"@ {
        Some("wss"@)
    } else {
        None
    }
}

/// The WebSocket URL of `endpoint` of the controller at `controller`: the
/// endpoint resolved below the controller's base URL, with the matching
/// WebSocket scheme, and with the secret, if any, as the query pair
/// `token`; nothing when a step fails or the scheme has no WebSocket
/// counterpart.
pub open spec fn websocket_spec(controller: Seq<char>, secret: Option<Seq<char>>, endpoint: Seq<char>) -> Option<
    Seq<char>,
> {
    match url_join(base_spec(controller), endpoint) {
        Some((u, scheme)) => match ws_scheme(scheme) {
            Some(ws) => match url_with_scheme(u, ws) {
                Some(w) => match secret {
                    Some(s) => url_with_pair(w, "token"@, s),
                    None => Some(w),
                },
                None => None,
            },
            None => None,
        },
        None => None,
    }
}

/// The WebSocket scheme for a URL scheme; see [`ws_scheme`].
pub fn websocket_scheme(scheme: &str) -> (r: Option<&'static str>)
    ensures
        match r {
            Some(s) => ws_scheme(scheme@) == Some(s@),
            None => ws_scheme(scheme@) is None,
        },
{
    if str_eq(scheme, "http") || str_eq(scheme, "ws") {
        Some("ws")
    } else if str_eq(scheme, "https") || str_eq(scheme, "wss") {
        Some("wss")
    } else {
        None
    }
}

/// The text of a secret, if there is one.
pub open spec fn secret_view(secret: Option<&str>) -> Option<Seq<char>> {
    match secret {
        Some(s) => Some(s@),
        None => None,
    }
}

/// The WebSocket URL of an endpoint of a controller; see
/// [`websocket_spec`].
pub fn websocket_url(controller: &str, secret: Option<&str>, endpoint: &str) -> (r: Option<String>)
    ensures
        websocket_spec(controller@, secret_view(secret), endpoint@) == (match r {
            Some(u) => Some(u@),
            None => None::<Seq<char>>,
        }),
{
    let base = controller_base(controller);
    let (url, scheme) = match join_url(base.as_str(), endpoint) {
        Some(joined) => joined,
        None => return None,
    };
    let ws = match websocket_scheme(scheme.as_str()) {
        Some(ws) => ws,
        None => return None,
    };
    let with_scheme = match set_url_scheme(url.as_str(), ws) {
        Some(u) => u,
        None => return None,
    };
    match secret {
        Some(s) => append_query_pair(with_scheme.as_str(), "token", s),
        None => Some(with_scheme),
    }
}

} // verus!

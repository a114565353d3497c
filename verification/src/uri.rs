//! What a router URI says: which transport its scheme asks for, and the
//! host and port to connect to.

use vstd::prelude::*;
use vstd::string::StrSliceExecFns;
use crate::types::{Error, ErrorKind};

verus! {

/// The transports that a URI can ask for.
#[derive(Debug, Clone, Copy, PartialEq, Eq, Structural)]
pub enum TransportKind {
    WebSocket,
    RawSocket,
}

/// Whether `s` begins with `prefix`.
pub fn has_prefix(s: &str, prefix: &str) -> (b: bool)
    ensures
        b == prefix@.is_prefix_of(s@),
{
    let n = prefix.unicode_len();
    let m = s.unicode_len();
    if n > m {
        return false;
    }
    let mut i: usize = 0;
    while i < n
        invariant
            i <= n <= m,
            n == prefix@.len(),
            m == s@.len(),
            forall|j: int| 0 <= j < i ==> s@[j] == prefix@[j],
        decreases n - i,
    {
        if s.get_char(i) != prefix.get_char(i) {
            assert(s@.subrange(0, n as int)[i as int] != prefix@[i as int]);
            return false;
        }
        i += 1;
    }
    assert(s@.subrange(0, n as int) =~= prefix@);
    true
}

/// The transport that the scheme of a URI asks for: WebSocket for `ws` and
/// `wss`, RawSocket for `rs`, `rss`, `tcp` and `tcps`, none for any other.
pub open spec fn transport_of(uri: Seq<char>) -> Option<TransportKind> {
    if "ws://"@.is_prefix_of(uri) || "wss://"@.is_prefix_of(uri) {
        Some(TransportKind::WebSocket)
    } else if "rs://"@.is_prefix_of(uri) || "rss://"@.is_prefix_of(uri) || "tcp://"@.is_prefix_of(
        uri,
    ) || "tcps://"@.is_prefix_of(uri) {
        Some(TransportKind::RawSocket)
    } else {
        None
    }
}

/// The transport to use for a router URI; a URI of any other scheme is an
/// invalid request.
pub fn transport_for(uri: &str) -> (r: Result<TransportKind, Error>)
    ensures
        match r {
            Ok(kind) => transport_of(uri@) == Some(kind),
            Err(e) => transport_of(uri@) is None && e.kind == ErrorKind::InvalidRequest
                && e.message@ == "Invalid URI scheme"@,
        },
{
    if has_prefix(uri, "ws://") || has_prefix(uri, "wss://") {
        Ok(TransportKind::WebSocket)
    } else if has_prefix(uri, "rs://") || has_prefix(uri, "rss://") || has_prefix(uri, "tcp://")
        || has_prefix(uri, "tcps://") {
        Ok(TransportKind::RawSocket)
    } else {
        Err(Error::with_kind(ErrorKind::InvalidRequest, "Invalid URI scheme"))
    }
}

/// Whether the URL parser accepts a text as an absolute URL.
pub uninterp spec fn url_parses(uri: Seq<char>) -> bool;

/// The host that the URL parser finds in a text; `None` where the text is
/// no URL or the URL has no host.
pub uninterp spec fn url_host(uri: Seq<char>) -> Option<Seq<char>>;

/// The port that the URL parser finds in a text, or the default port of
/// its scheme where that is known to the parser; `None` where the text is
/// no URL or neither is there.
pub uninterp spec fn url_port(uri: Seq<char>) -> Option<u16>;

/// `url::Url::parse`: whether the text parses as an absolute URL.
#[verifier::external_body]
fn parses(uri: &str) -> (b: bool)
    ensures
        b == url_parses(uri@),
{
    url::Url::parse(uri).is_ok()
}

/// `url::Url::host_str` on the parsed text: the host as the parsed URL
/// holds it, `None` where the text does not parse or the URL has no host.
#[verifier::external_body]
fn host_of(uri: &str) -> (r: Option<String>)
    ensures
        match r {
            Some(host) => url_host(uri@) == Some(host@),
            None => url_host(uri@) is None,
        },
{
    url::Url::parse(uri).ok()?.host_str().map(|h| h.to_string())
}

/// `url::Url::port_or_known_default` on the parsed text: the port that the
/// URL names, else the default port of its scheme where the parser knows
/// one, `None` where the text does not parse or neither is there.
#[verifier::external_body]
fn port_of(uri: &str) -> (r: Option<u16>)
    ensures
        r == url_port(uri@),
{
    url::Url::parse(uri).ok()?.port_or_known_default()
}

/// The address to connect to, from what the URL parser found: the text has
/// to be a URL, with a host, and with a port of its own or of its scheme.
pub fn address_from_parts(parsed: bool, host: Option<String>, port: Option<u16>) -> (r: Result<
    (String, u16),
    Error,
>)
    ensures
        match r {
            Ok((h, p)) => parsed && host == Some(h) && port == Some(p),
            Err(e) => {
                &&& e.kind == ErrorKind::InvalidRequest
                &&& !parsed || host is None || port is None
                &&& !parsed ==> e.message@ == "Invalid URI"@
                &&& parsed && host is None ==> e.message@ == "Missing host in URI"@
                &&& parsed && host is Some ==> e.message@ == "Missing or invalid port"@
            },
        },
{
    if !parsed {
        return Err(Error::with_kind(ErrorKind::InvalidRequest, "Invalid URI"));
    }
    let h = match host {
        Some(h) => h,
        None => {
            return Err(Error::with_kind(ErrorKind::InvalidRequest, "Missing host in URI"));
        },
    };
    match port {
        Some(p) => Ok((h, p)),
        None => Err(Error::with_kind(ErrorKind::InvalidRequest, "Missing or invalid port")),
    }
}

/// The host and port that a router URI names.
pub fn socket_address(uri: &str) -> (r: Result<(String, u16), Error>)
    ensures
        match r {
            Ok((h, p)) => url_parses(uri@) && url_host(uri@) == Some(h@) && url_port(uri@) == Some(
                p,
            ),
            Err(e) => e.kind == ErrorKind::InvalidRequest && (!url_parses(uri@) || url_host(uri@)
                is None || url_port(uri@) is None),
        },
{
    let parsed = parses(uri);
    let host = host_of(uri);
    let port = port_of(uri);
    address_from_parts(parsed, host, port)
}

} // verus!

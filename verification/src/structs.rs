//! The data a Bare request is parsed into, and URLs as plain parts.
use vstd::prelude::*;
use vstd::string::StringExecFns;
use crate::err::{BareError, BareErrorCode};
use crate::headers::HeaderList;
use crate::text::{decimal_string, push_char, push_str, spec_decimal, str_eq};

verus! {

/// Where a Bare request goes.
#[derive(Clone, Debug)]
pub struct BareRemote {
    pub scheme: String,
    pub host: String,
    pub port: u16,
    // Uri fragments aren't sent back to the server,
    // so it shouldn't be named 'pathquery'
    pub pathquery: String,
}

/// A parsed Bare HTTP request.
#[derive(Debug)]
pub struct BareRemoteData {
    pub remote: BareRemote,
    pub headers: HeaderList,
    pub forward_headers: Vec<String>,
    pub pass_headers: Vec<String>,
    pub pass_statuses: Vec<u16>,
}

/// What the remote answered to a WebSocket handshake.
#[derive(Debug)]
pub struct WsResponseData {
    pub status: u16,
    pub status_text: String,
    pub headers: HeaderList,
}

/// The metadata of a Bare WebSocket.
#[derive(Debug)]
pub struct WsMeta {
    pub version: BareServerVersion,
    pub wremote: BareRemote,
    pub wheaders: HeaderList,
    pub wforward_headers: Vec<String>,
    pub wresponse: Option<WsResponseData>,
    pub id: Option<String>,
}

/// The versions of the Bare protocol.
#[derive(Clone, Copy, Debug, PartialEq, Eq, Structural)]
pub enum BareServerVersion {
    V1,
    V2,
    V3,
}

/// The version a request came in on, and whether it asked for caching.
#[derive(Clone, Copy, Debug)]
pub struct BareServerInfo {
    pub version: BareServerVersion,
    pub cache: bool,
}

/// A URI as the `http` crate's `Uri` exposes it.
#[derive(Debug)]
pub struct UriParts {
    pub scheme: Option<String>,
    pub host: Option<String>,
    pub port: Option<u16>,
    pub path_and_query: Option<String>,
    /// The URI as `Uri`'s `Display` writes it.
    pub text: String,
}

pub type UriView = (Option<Seq<char>>, Option<Seq<char>>, Option<u16>, Option<Seq<char>>, Seq<char>);

pub open spec fn opt_view(o: Option<String>) -> Option<Seq<char>> {
    match o {
        Some(s) => Some(s@),
        None => None,
    }
}

/// A parse result by its view.
pub open spec fn parse_view(r: Result<UriParts, String>) -> Result<UriView, Seq<char>> {
    match r {
        Ok(u) => Ok(u.view_parts()),
        Err(e) => Err(e@),
    }
}

impl UriParts {
    pub open spec fn view_parts(&self) -> UriView {
        (opt_view(self.scheme), opt_view(self.host), self.port, opt_view(self.path_and_query), self.text@)
    }
}

/// What `Uri::from_str` makes of a text: its parts, or the `Debug` text of
/// the error.
pub uninterp spec fn uri_parse(s: Seq<char>) -> Result<UriView, Seq<char>>;

/// What `Uri::builder()` with this scheme, authority and path-and-query
/// builds, as text, or `None` where it refuses them.
pub uninterp spec fn uri_build(scheme: Seq<char>, authority: Seq<char>, pathquery: Seq<char>) -> Option<Seq<char>>;

/// `Uri::from_str`, taken apart into `scheme_str()`, `host()`,
/// `port_u16()`, `path_and_query()` and its `Display` text; on refusal the
/// `Debug` text of the `InvalidUri` error. Nothing is stated of how a text is
/// parsed (RFC 3986 as the `http` crate reads it); the result is named.
#[verifier::external_body]
pub(crate) fn parse_uri(s: &str) -> (r: Result<UriParts, String>)
    ensures
        parse_view(r) == uri_parse(s@),
{
    match <axum::http::Uri as std::str::FromStr>::from_str(s) {
        Ok(u) => Ok(UriParts {
            scheme: u.scheme_str().map(|x| x.to_string()),
            host: u.host().map(|x| x.to_string()),
            port: u.port_u16(),
            path_and_query: u.path_and_query().map(|x| x.as_str().to_string()),
            text: u.to_string(),
        }),
        Err(e) => Err(format!("{e:?}")),
    }
}

/// `Uri::builder().scheme(..).authority(..).path_and_query(..).build()`, the
/// result as its `Display` text; `None` where the builder refuses a part.
/// Nothing is stated of which parts it refuses; the result is named.
#[verifier::external_body]
pub(crate) fn build_uri(scheme: &str, authority: &str, pathquery: &str) -> (r: Option<String>)
    ensures
        opt_view(r) == uri_build(scheme@, authority@, pathquery@),
{
    match axum::http::Uri::builder().scheme(scheme).authority(authority).path_and_query(pathquery).build() {
        Ok(u) => Some(u.to_string()),
        Err(_) => None,
    }
}

/// The authority `host:port` of a remote.
pub open spec fn spec_authority(host: Seq<char>, port: u16) -> Seq<char> {
    host + seq![':'] + spec_decimal(port as nat)
}

/// Whether a scheme has a default port that a remote may take: 80 for
/// `http` (and `ws` where WebSockets are allowed), 443 for `https` (and `wss`).
pub open spec fn spec_default_port(scheme: Seq<char>, allow_ws: bool) -> Option<u16> {
    if scheme == "http"@ {
        Some(80)
    } else if allow_ws && scheme == "ws"@ {
        Some(80)
    } else if scheme == "https"@ {
        Some(443)
    } else if allow_ws && scheme == "wss"@ {
        Some(443)
    } else {
        None
    }
}

impl BareRemote {
    /// The URL `scheme://host:port/path?query` of the remote; `None` where
    /// the parts do not make a URI.
    pub fn to_url(&self) -> (r: Option<String>)
        ensures
            opt_view(r) == uri_build(self.scheme@, spec_authority(self.host@, self.port), self.pathquery@),
    {
        let mut authority = self.host.clone();
        push_char(&mut authority, ':');
        let port = decimal_string(self.port as u64);
        push_str(&mut authority, port.as_str());
        assert(authority@ =~= spec_authority(self.host@, self.port));
        build_uri(self.scheme.as_str(), authority.as_str(), self.pathquery.as_str())
    }

    /// The remote of a parsed URL: its host, its port or else the default
    /// port of its scheme, its path and query, and its scheme.
    pub fn try_from_url(url: &UriParts, allow_ws: bool) -> (r: Result<BareRemote, BareError>)
        requires
            url.host is Some,
            url.scheme is Some,
            url.path_and_query is Some || (url.port is None && spec_default_port(
                url.scheme->Some_0@,
                allow_ws,
            ) is None),
        ensures
            (url.port is None && spec_default_port(url.scheme->Some_0@, allow_ws) is None) ==> (r
                matches Err(e) && e.code == BareErrorCode::INVALID_BARE_HEADER && e.id@
                == "request.header.x-bare-url"@ && e.message@ == "The port for "@ + url.text@
                + " could not be found or inferred by its scheme"@),
            !(url.port is None && spec_default_port(url.scheme->Some_0@, allow_ws) is None) ==> (r
                matches Ok(remote) && remote.host@ == url.host->Some_0@ && remote.scheme@
                == url.scheme->Some_0@ && remote.pathquery@ == url.path_and_query->Some_0@
                && remote.port == (match url.port {
                Some(p) => p,
                None => spec_default_port(url.scheme->Some_0@, allow_ws)->Some_0,
            })),
    {
        let host = match &url.host {
            Some(h) => h.clone(),
            None => {
                return Err(BareError {
                    code: BareErrorCode::UNKNOWN,
                    id: String::new(),
                    message: String::new(),
                });
            },
        };
        let scheme = match &url.scheme {
            Some(s) => s.clone(),
            None => {
                return Err(BareError {
                    code: BareErrorCode::UNKNOWN,
                    id: String::new(),
                    message: String::new(),
                });
            },
        };
        let port = match url.port {
            Some(p) => p,
            None => {
                match default_port(scheme.as_str(), allow_ws) {
                    Some(p) => p,
                    None => {
                        let mut message = String::from_str("The port for ");
                        push_str(&mut message, url.text.as_str());
                        push_str(&mut message, " could not be found or inferred by its scheme");
                        return Err(BareError {
                            code: BareErrorCode::INVALID_BARE_HEADER,
                            id: String::from_str("request.header.x-bare-url"),
                            message,
                        });
                    },
                }
            },
        };
        let pathquery = match &url.path_and_query {
            Some(p) => p.clone(),
            None => {
                return Err(BareError {
                    code: BareErrorCode::UNKNOWN,
                    id: String::new(),
                    message: String::new(),
                });
            },
        };
        Ok(BareRemote { host, port, pathquery, scheme })
    }
}

/// The default port of a scheme (see [`spec_default_port`]).
pub fn default_port(scheme: &str, allow_ws: bool) -> (r: Option<u16>)
    ensures
        r == spec_default_port(scheme@, allow_ws),
{
    if str_eq(scheme, "http") {
        Some(80)
    } else if allow_ws && str_eq(scheme, "ws") {
        Some(80)
    } else if str_eq(scheme, "https") {
        Some(443)
    } else if allow_ws && str_eq(scheme, "wss") {
        Some(443)
    } else {
        None
    }
}

} // verus!

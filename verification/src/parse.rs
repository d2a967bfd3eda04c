//! Parsing a Bare request into its remote and header lists (the `parse_req`
//! of each protocol version).
use vstd::prelude::*;
use crate::err::{BareError, ErrorView};
use crate::getxb::{
    get_x_bare_forward_headers_checked, get_x_bare_headers_checked, get_x_bare_host,
    get_x_bare_pass_headers_checked, get_x_bare_pass_statuses, get_x_bare_path, get_x_bare_port,
    get_x_bare_protocol, get_x_bare_url, names_view, spec_forward_items, spec_read_forward,
    spec_read_headers, spec_read_pass_headers, spec_required_text, spec_text_header,
    spec_x_bare_pass_statuses, spec_x_bare_port, spec_x_bare_protocol, spec_x_bare_url, text_header,
};
use crate::headers::{HeaderList, HeaderSeq};
use crate::structs::{
    opt_view, spec_default_port, BareRemote, BareRemoteData, BareServerInfo, BareServerVersion,
    UriView,
};

verus! {

/// A parsed request as its remote (scheme, host, port, path and query), the
/// headers to send, and the forward, pass and status lists.
pub type RemoteDataView = (Seq<char>, Seq<char>, u16, Seq<char>, HeaderSeq, Seq<Seq<char>>, Seq<Seq<char>>, Seq<u16>);

impl BareRemoteData {
    pub open spec fn view_parts(&self) -> RemoteDataView {
        (
            self.remote.scheme@,
            self.remote.host@,
            self.remote.port,
            self.remote.pathquery@,
            self.headers@,
            names_view(self.forward_headers@),
            names_view(self.pass_headers@),
            self.pass_statuses@,
        )
    }
}

pub open spec fn data_result_view(r: Result<BareRemoteData, BareError>) -> Result<RemoteDataView, ErrorView> {
    match r {
        Ok(d) => Ok(d.view_parts()),
        Err(e) => Err(e@),
    }
}

/// The headers to send, read without panicking, as a `None`-or-result.
pub open spec fn spec_headers_step(h: HeaderList, info: BareServerInfo) -> Option<Result<HeaderSeq, ErrorView>> {
    spec_read_headers(h, info)
}

/// The pass lists, read after the headers to send and the forward list.
pub open spec fn spec_pass_step(h: HeaderList, info: BareServerInfo) -> Option<Result<(Seq<Seq<char>>, Seq<u16>), ErrorView>> {
    {
        match spec_read_pass_headers(h, info.cache) {
            None => None,
            Some(Err(e)) => Some(Err(e)),
            Some(Ok(pass)) => if !spec_text_header(h, "x-bare-pass-status"@) {
                None
            } else {
                match spec_x_bare_pass_statuses(h, info.cache) {
                    Err(e) => Some(Err(e)),
                    Ok(statuses) => Some(Ok((pass, statuses))),
                }
            },
        }
    }
}

/// The forward list of version 1 and 2 requests (its errors are errors).
pub open spec fn spec_forward_step(h: HeaderList, info: BareServerInfo) -> Option<Result<Seq<Seq<char>>, ErrorView>> {
    spec_read_forward(h, info, spec_forward_items(h))
}

/// What parsing a version 1 request gives; `None` where the input cannot be read.
pub open spec fn spec_v1_parse_req(h: HeaderList, info: BareServerInfo) -> Option<Result<RemoteDataView, ErrorView>> {
    if !spec_text_header(h, "x-bare-protocol"@) {
        None
    } else {
        match spec_x_bare_protocol(h) {
            Err(e) => Some(Err(e)),
            Ok(scheme) => if !spec_text_header(h, "x-bare-host"@) {
                None
            } else {
                match spec_required_text(h, "x-bare-host"@, "request.headers.x-bare-host"@) {
                    Err(e) => Some(Err(e)),
                    Ok(host) => if !spec_text_header(h, "x-bare-port"@) {
                        None
                    } else {
                        match spec_x_bare_port(h) {
                            Err(e) => Some(Err(e)),
                            Ok(port) => if !spec_text_header(h, "x-bare-path"@) {
                                None
                            } else {
                                match spec_required_text(h, "x-bare-path"@, "request.headers.x-bare-path"@) {
                                    Err(e) => Some(Err(e)),
                                    Ok(path) => match spec_headers_step(h, info) {
                                        None => None,
                                        Some(Err(e)) => Some(Err(e)),
                                        Some(Ok(hs)) => match spec_forward_step(h, info) {
                                            None => None,
                                            Some(Err(e)) => Some(Err(e)),
                                            Some(Ok(fwd)) => match spec_pass_step(h, info) {
                                                None => None,
                                                Some(Err(e)) => Some(Err(e)),
                                                Some(Ok((pass, statuses))) => Some(
                                                    Ok((scheme, host, port, path, hs, fwd, pass, statuses)),
                                                ),
                                            },
                                        },
                                    },
                                }
                            },
                        }
                    },
                }
            },
        }
    }
}

/// Parses a version 1 request: the remote from `x-bare-protocol`,
/// `x-bare-host`, `x-bare-port` and `x-bare-path`, then the headers to send,
/// the forward list, the pass headers and the pass statuses; the first error
/// is returned.
pub fn v1_parse_req(headers: &HeaderList, info: BareServerInfo) -> (r: Result<BareRemoteData, BareError>)
    requires
        spec_v1_parse_req(*headers, info) is Some,
    ensures
        spec_v1_parse_req(*headers, info) == Some(data_result_view(r)),
{
    match v1_parse_req_checked(headers, info) {
        Some(r) => r,
        None => unreached(),
    }
}

pub open spec fn opt_data_result_view(r: Option<Result<BareRemoteData, BareError>>) -> Option<Result<RemoteDataView, ErrorView>> {
    match r {
        Some(res) => Some(data_result_view(res)),
        None => None,
    }
}

/// [`v1_parse_req`] for any request: `None` exactly where the original
/// panics (a header read that is not text, or a name or value that is not a
/// header name or value).
pub fn v1_parse_req_checked(headers: &HeaderList, info: BareServerInfo) -> (r: Option<Result<BareRemoteData, BareError>>)
    ensures
        opt_data_result_view(r) == spec_v1_parse_req(*headers, info),
{
    if !text_header(headers, "x-bare-protocol") {
        return None;
    }
    let scheme = match get_x_bare_protocol(headers) {
        Ok(s) => s,
        Err(e) => return Some(Err(e)),
    };
    if !text_header(headers, "x-bare-host") {
        return None;
    }
    let host = match get_x_bare_host(headers) {
        Ok(s) => s,
        Err(e) => return Some(Err(e)),
    };
    if !text_header(headers, "x-bare-port") {
        return None;
    }
    let port = match get_x_bare_port(headers) {
        Ok(p) => p,
        Err(e) => return Some(Err(e)),
    };
    if !text_header(headers, "x-bare-path") {
        return None;
    }
    let pathquery = match get_x_bare_path(headers) {
        Ok(s) => s,
        Err(e) => return Some(Err(e)),
    };
    let x_bare_headers = match get_x_bare_headers_checked(headers, info) {
        None => return None,
        Some(Ok(h)) => h,
        Some(Err(e)) => return Some(Err(e)),
    };
    let x_bare_forward_headers = match get_x_bare_forward_headers_checked(headers, info) {
        None => return None,
        Some(Ok(f)) => f,
        Some(Err(e)) => return Some(Err(e)),
    };
    let x_bare_pass_headers = match get_x_bare_pass_headers_checked(headers, info.cache) {
        None => return None,
        Some(Ok(p)) => p,
        Some(Err(e)) => return Some(Err(e)),
    };
    if !text_header(headers, "x-bare-pass-status") {
        return None;
    }
    let x_bare_pass_statuses = match get_x_bare_pass_statuses(headers, info.cache) {
        Ok(s) => s,
        Err(e) => return Some(Err(e)),
    };
    Some(Ok(BareRemoteData {
        remote: BareRemote { scheme, host, port, pathquery },
        headers: x_bare_headers,
        forward_headers: x_bare_forward_headers,
        pass_headers: x_bare_pass_headers,
        pass_statuses: x_bare_pass_statuses,
    }))
}

} // verus!

verus! {

/// `BareRemote::try_from_url` does not panic on the parts of a URI.
pub open spec fn spec_remote_from_uri_ok(u: UriView, allow_ws: bool) -> bool {
    &&& u.1 is Some
    &&& u.0 is Some
    &&& (u.3 is Some || (u.2 is None && spec_default_port(u.0->Some_0, allow_ws) is None))
}

/// What `BareRemote::try_from_url` gives for the parts of a URI: scheme,
/// host, port (or the default of the scheme), path and query.
pub open spec fn spec_remote_from_uri(u: UriView, allow_ws: bool) -> Result<(Seq<char>, Seq<char>, u16, Seq<char>), ErrorView> {
    if u.2 is None && spec_default_port(u.0->Some_0, allow_ws) is None {
        Err(
            (
                crate::err::BareErrorCode::INVALID_BARE_HEADER,
                "request.header.x-bare-url"@,
                "The port for "@ + u.4 + " could not be found or inferred by its scheme"@,
            ),
        )
    } else {
        Ok(
            (
                u.0->Some_0,
                u.1->Some_0,
                match u.2 {
                    Some(p) => p,
                    None => spec_default_port(u.0->Some_0, allow_ws)->Some_0,
                },
                u.3->Some_0,
            ),
        )
    }
}

/// The steps of a version 3 request before its URL is taken apart: the URL,
/// the headers to send, the forward list (an error there gives the empty
/// list), the pass lists. `None` where the input cannot be read.
pub open spec fn spec_v3_steps(h: HeaderList, info: BareServerInfo) -> Option<Result<(UriView, HeaderSeq, Seq<Seq<char>>, Seq<Seq<char>>, Seq<u16>), ErrorView>> {
    if !spec_text_header(h, "x-bare-url"@) {
        None
    } else {
        match spec_x_bare_url(h) {
            Err(e) => Some(Err(e)),
            Ok(u) => match spec_headers_step(h, info) {
                None => None,
                Some(Err(e)) => Some(Err(e)),
                Some(Ok(hs)) => match spec_forward_step(h, info) {
                    None => None,
                    Some(fwd_result) => {
                        let fwd = match fwd_result {
                            Ok(f) => f,
                            Err(_) => Seq::<Seq<char>>::empty(),
                        };
                        match spec_pass_step(h, info) {
                            None => None,
                            Some(Err(e)) => Some(Err(e)),
                            Some(Ok((pass, statuses))) => Some(Ok((u, hs, fwd, pass, statuses))),
                        }
                    },
                },
            },
        }
    }
}

/// What parsing a version 3 request gives; `None` where the input cannot be read.
pub open spec fn spec_v3_parse_req(h: HeaderList, info: BareServerInfo) -> Option<Result<RemoteDataView, ErrorView>> {
    match spec_v3_steps(h, info) {
        None => None,
        Some(Err(e)) => Some(Err(e)),
        Some(Ok((u, hs, fwd, pass, statuses))) => if !spec_remote_from_uri_ok(u, false) {
            None
        } else {
            match spec_remote_from_uri(u, false) {
                Err(e) => Some(Err(e)),
                Ok((scheme, host, port, path)) => Some(Ok((scheme, host, port, path, hs, fwd, pass, statuses))),
            }
        },
    }
}

/// Parses a version 3 request: `x-bare-url`, the headers to send, the
/// forward list (defaults where it cannot be read), the pass headers and
/// statuses, then the remote from the URL (port inferred from `http`/`https`).
pub fn v3_parse_req(headers: &HeaderList, info: BareServerInfo) -> (r: Result<BareRemoteData, BareError>)
    requires
        spec_v3_parse_req(*headers, info) is Some,
    ensures
        spec_v3_parse_req(*headers, info) == Some(data_result_view(r)),
{
    match v3_parse_req_checked(headers, info) {
        Some(r) => r,
        None => unreached(),
    }
}

/// [`v3_parse_req`] for any request: `None` exactly where the original
/// panics (a header read that is not text, a name or value that is not a
/// header name or value, or a URL that lacks a host, a scheme or a path
/// that the remote needs).
pub fn v3_parse_req_checked(headers: &HeaderList, info: BareServerInfo) -> (r: Option<Result<BareRemoteData, BareError>>)
    ensures
        opt_data_result_view(r) == spec_v3_parse_req(*headers, info),
{
    if !text_header(headers, "x-bare-url") {
        return None;
    }
    let url = match get_x_bare_url(headers) {
        Ok(u) => u,
        Err(e) => return Some(Err(e)),
    };
    let x_bare_headers = match get_x_bare_headers_checked(headers, info) {
        None => return None,
        Some(Ok(h)) => h,
        Some(Err(e)) => return Some(Err(e)),
    };
    let x_bare_forward_headers = match get_x_bare_forward_headers_checked(headers, info) {
        None => return None,
        Some(Ok(f)) => f,
        Some(Err(_)) => Vec::new(),
    };
    assert(names_view(x_bare_forward_headers@) =~= (match spec_forward_step(*headers, info) {
        Some(Ok(f)) => f,
        _ => Seq::<Seq<char>>::empty(),
    }));
    let x_bare_pass_headers = match get_x_bare_pass_headers_checked(headers, info.cache) {
        None => return None,
        Some(Ok(p)) => p,
        Some(Err(e)) => return Some(Err(e)),
    };
    if !text_header(headers, "x-bare-pass-status") {
        return None;
    }
    let x_bare_pass_statuses = match get_x_bare_pass_statuses(headers, info.cache) {
        Ok(s) => s,
        Err(e) => return Some(Err(e)),
    };
    let ok = match (&url.host, &url.scheme, &url.path_and_query) {
        (Some(_), Some(scheme), pq) => pq.is_some() || (url.port.is_none() && crate::structs::default_port(scheme.as_str(), false).is_none()),
        _ => false,
    };
    if !ok {
        return None;
    }
    let remote = match BareRemote::try_from_url(&url, false) {
        Ok(r) => r,
        Err(e) => return Some(Err(e)),
    };
    Some(Ok(BareRemoteData {
        remote,
        headers: x_bare_headers,
        forward_headers: x_bare_forward_headers,
        pass_headers: x_bare_pass_headers,
        pass_statuses: x_bare_pass_statuses,
    }))
}

/// The metadata of a version 2 WebSocket as a view: remote, headers to
/// send, forward list.
pub type WsMetaView = (Seq<char>, Seq<char>, u16, Seq<char>, HeaderSeq, Seq<Seq<char>>);

impl crate::structs::WsMeta {
    pub open spec fn view_parts(&self) -> WsMetaView {
        (
            self.wremote.scheme@,
            self.wremote.host@,
            self.wremote.port,
            self.wremote.pathquery@,
            self.wheaders@,
            names_view(self.wforward_headers@),
        )
    }
}

/// What parsing a version 2 WebSocket request gives; `None` where the
/// input cannot be read.
pub open spec fn spec_v2_ws_parse_req(h: HeaderList, cache: bool) -> Option<Result<WsMetaView, ErrorView>> {
    let info = BareServerInfo { version: BareServerVersion::V2, cache };
    if !spec_text_header(h, "x-bare-protocol"@) {
            None
        } else {
            match spec_x_bare_protocol(h) {
                Err(e) => Some(Err(e)),
                Ok(scheme) => if !spec_text_header(h, "x-bare-host"@) {
                    None
                } else {
                    match spec_required_text(h, "x-bare-host"@, "request.headers.x-bare-host"@) {
                        Err(e) => Some(Err(e)),
                        Ok(host) => if !spec_text_header(h, "x-bare-port"@) {
                            None
                        } else {
                            match spec_x_bare_port(h) {
                                Err(e) => Some(Err(e)),
                                Ok(port) => if !spec_text_header(h, "x-bare-path"@) {
                                    None
                                } else {
                                    match spec_required_text(h, "x-bare-path"@, "request.headers.x-bare-path"@) {
                                        Err(e) => Some(Err(e)),
                                        Ok(path) => match spec_headers_step(h, info) {
                                            None => None,
                                            Some(Err(e)) => Some(Err(e)),
                                            Some(Ok(hs)) => match spec_forward_step(h, info) {
                                                None => None,
                                                Some(Err(e)) => Some(Err(e)),
                                                Some(Ok(fwd)) => Some(Ok((scheme, host, port, path, hs, fwd))),
                                            },
                                        },
                                    }
                                },
                            }
                        },
                    }
                },
            }
    }
}

/// Parses the request that creates a version 2 WebSocket's metadata: the
/// remote, the headers to send and the forward list, as for a version 2
/// request.
pub fn v2_ws_new_meta_parse_req(headers: &HeaderList, cache: bool) -> (r: Result<crate::structs::WsMeta, BareError>)
    requires
        spec_v2_ws_parse_req(*headers, cache) is Some,
    ensures
        spec_v2_ws_parse_req(*headers, cache) == Some(match r {
            Ok(m) => Ok(m.view_parts()),
            Err(e) => Err(e@),
        }),
        r matches Ok(m) ==> m.version == BareServerVersion::V2 && m.wresponse is None && m.id is None,
{
    match v2_ws_new_meta_parse_req_checked(headers, cache) {
        Some(r) => r,
        None => unreached(),
    }
}

/// [`v2_ws_new_meta_parse_req`] for any request: `None` exactly where the
/// original panics.
pub fn v2_ws_new_meta_parse_req_checked(headers: &HeaderList, cache: bool) -> (r: Option<Result<crate::structs::WsMeta, BareError>>)
    ensures
        spec_v2_ws_parse_req(*headers, cache) == match r {
            Some(Ok(m)) => Some(Ok::<WsMetaView, ErrorView>(m.view_parts())),
            Some(Err(e)) => Some(Err::<WsMetaView, ErrorView>(e@)),
            None => None,
        },
        r matches Some(Ok(m)) ==> m.version == BareServerVersion::V2 && m.wresponse is None && m.id is None,
{
    let info = BareServerInfo { version: BareServerVersion::V2, cache };
    if !text_header(headers, "x-bare-protocol") {
        return None;
    }
    let scheme = match get_x_bare_protocol(headers) {
        Ok(s) => s,
        Err(e) => return Some(Err(e)),
    };
    if !text_header(headers, "x-bare-host") {
        return None;
    }
    let host = match get_x_bare_host(headers) {
        Ok(s) => s,
        Err(e) => return Some(Err(e)),
    };
    if !text_header(headers, "x-bare-port") {
        return None;
    }
    let port = match get_x_bare_port(headers) {
        Ok(p) => p,
        Err(e) => return Some(Err(e)),
    };
    if !text_header(headers, "x-bare-path") {
        return None;
    }
    let pathquery = match get_x_bare_path(headers) {
        Ok(s) => s,
        Err(e) => return Some(Err(e)),
    };
    let x_bare_headers = match get_x_bare_headers_checked(headers, info) {
        None => return None,
        Some(Ok(h)) => h,
        Some(Err(e)) => return Some(Err(e)),
    };
    let x_bare_forward_headers = match get_x_bare_forward_headers_checked(headers, info) {
        None => return None,
        Some(Ok(f)) => f,
        Some(Err(e)) => return Some(Err(e)),
    };
    Some(Ok(crate::structs::WsMeta {
        version: BareServerVersion::V2,
        wremote: BareRemote { scheme, host, port, pathquery },
        wheaders: x_bare_headers,
        wforward_headers: x_bare_forward_headers,
        wresponse: None,
        id: None,
    }))
}

} // verus!

//! The decisions of a Bare HTTP request: which error answers a failed
//! request, which addresses are refused, and how the remote's response is
//! passed back.
use vstd::prelude::*;
use vstd::string::{StringExecFns, StringSliceAdditionalSpecFns};
use vstd::utf8::encode_utf8;
use crate::consts::{
    is_null_body_status, null_body_methods, one_of, spec_null_body_methods, spec_null_body_status,
    views,
};
use crate::err::{bare_error, BareError, BareErrorCode};
use crate::getxb::{get_x_bare_forward_headers_map, names_view, spec_forward_headers_map};
use crate::headers::{
    clone_bytes, is_header_value_ok, spec_ascii_text, spec_header_extend, spec_header_insert,
    spec_header_value_ok, spec_visible_ascii, str_bytes, value_text, HeaderList, HeaderSeq,
};
use crate::ip::{ip_is_not_global, spec_ip_is_global, IpAddress};
use crate::json::{json_string_map, spec_is_json_object_of, spec_pairs_map};
use crate::parse::RemoteDataView;
use crate::splitjoin::{spec_split_x_bare_headers, try_split_x_bare_headers_str};
use crate::structs::{opt_view, spec_authority, uri_build, BareRemoteData, BareServerVersion};
use crate::text::{chars_of, decimal_string, push_str, spec_decimal, string_from_chars};

verus! {

/// The error code for a request to the remote that failed with an HTTP
/// status: 404 host not found, 400 connection reset, 502 connection refused,
/// 504 and 408 timeouts, anything else unknown.
pub open spec fn spec_failure_code(status: u16) -> BareErrorCode {
    if status == 404 {
        BareErrorCode::HOST_NOT_FOUND
    } else if status == 400 {
        BareErrorCode::CONNECTION_RESET
    } else if status == 502 {
        BareErrorCode::CONNECTION_REFUSED
    } else if status == 504 || status == 408 {
        BareErrorCode::CONNECTION_TIMEOUT
    } else {
        BareErrorCode::UNKNOWN
    }
}

/// The error that answers a request to the remote that failed: by the
/// failure's HTTP status where it has one, else unknown, with the failure's
/// text in the message.
pub fn request_failure_error(status: Option<u16>, failure: &str) -> (e: BareError)
    ensures
        match status {
            Some(s) => e@ == (spec_failure_code(s), "response"@, "Failed to get response"@),
            None => e@ == (
                BareErrorCode::UNKNOWN,
                "response"@,
                "Failed to get the status of the failed response: "@ + failure@,
            ),
        },
{
    match status {
        None => {
            let mut message = String::from_str("Failed to get the status of the failed response: ");
            push_str(&mut message, failure);
            bare_error(BareErrorCode::UNKNOWN, "response", message)
        },
        Some(s) => {
            let code = if s == 404 {
                BareErrorCode::HOST_NOT_FOUND
            } else if s == 400 {
                BareErrorCode::CONNECTION_RESET
            } else if s == 502 {
                BareErrorCode::CONNECTION_REFUSED
            } else if s == 504 || s == 408 {
                BareErrorCode::CONNECTION_TIMEOUT
            } else {
                BareErrorCode::UNKNOWN
            };
            bare_error(code, "response", String::from_str("Failed to get response"))
        },
    }
}

/// What [`validate_remote_ip_addr`] answers for a lookup's outcome: the DNS
/// error, the error for the first address that is not global, or `Ok`.
pub open spec fn spec_remote_ip_outcome(
    host: Seq<char>,
    remote_url: Seq<char>,
    lookup: Result<Vec<(IpAddress, String)>, String>,
    r: Result<(), BareError>,
) -> bool {
    match lookup {
        Err(dns) => r matches Err(e) && e@ == (
            BareErrorCode::UNKNOWN,
            "request.dns"@,
            "DNS could not find '"@ + host + "': "@ + dns@,
        ),
        Ok(ips) => match r {
            Ok(()) => forall|j: int| 0 <= j < ips@.len() ==> spec_ip_is_global(#[trigger] ips@[j].0),
            Err(e) => exists|i: int|
                0 <= i < ips@.len() && !spec_ip_is_global(ips@[i].0) && (forall|j: int|
                    0 <= j < i ==> spec_ip_is_global(#[trigger] ips@[j].0)) && e@ == (
                    BareErrorCode::UNKNOWN,
                    "request.ip"@,
                    "The ip address of the remote '"@ + remote_url + "' is '"@ + ips@[i].1@
                        + "', which is is not a global ip"@,
                ),
        },
    }
}

/// The address policy of a Bare request: where non-global addresses are
/// blocked, the addresses its host resolved to (`lookup`, made only then)
/// decide as [`validate_remote_ip_addr`] says; otherwise the request goes on.
pub fn check_remote_addresses(
    block_non_global_ips: bool,
    host: &str,
    remote_url: &str,
    lookup: &Option<Result<Vec<(IpAddress, String)>, String>>,
) -> (r: Result<(), BareError>)
    requires
        block_non_global_ips ==> lookup is Some,
    ensures
        block_non_global_ips ==> spec_remote_ip_outcome(host@, remote_url@, lookup->Some_0, r),
        !block_non_global_ips ==> r is Ok,
{
    if !block_non_global_ips {
        return Ok(());
    }
    match lookup {
        Some(l) => validate_remote_ip_addr(host, remote_url, l),
        None => Ok(()),
    }
}

/// Whether a request may go to the addresses that its host resolved to: the
/// DNS lookup failed (its error text given), or an address is not globally
/// reachable (each address given with its text), refuses the request.
#[verifier::loop_isolation(false)]
pub fn validate_remote_ip_addr(
    host: &str,
    remote_url: &str,
    lookup: &Result<Vec<(IpAddress, String)>, String>,
) -> (r: Result<(), BareError>)
    ensures
        spec_remote_ip_outcome(host@, remote_url@, *lookup, r),
{
    match lookup {
        Err(dns) => {
            let mut message = String::from_str("DNS could not find '");
            push_str(&mut message, host);
            push_str(&mut message, "': ");
            push_str(&mut message, dns.as_str());
            Err(bare_error(BareErrorCode::UNKNOWN, "request.dns", message))
        },
        Ok(ips) => {
            let mut i: usize = 0;
            while i < ips.len()
                invariant
                    i <= ips@.len(),
                    forall|j: int| 0 <= j < i ==> spec_ip_is_global(#[trigger] ips@[j].0),
                decreases ips@.len() - i,
            {
                if ip_is_not_global(&ips[i].0) {
                    let mut message = String::from_str("The ip address of the remote '");
                    push_str(&mut message, remote_url);
                    push_str(&mut message, "' is '");
                    push_str(&mut message, ips[i].1.as_str());
                    push_str(&mut message, "', which is is not a global ip");
                    let e = bare_error(BareErrorCode::UNKNOWN, "request.ip", message);
                    assert(!spec_ip_is_global(ips@[i as int].0) && e@ == (
                        BareErrorCode::UNKNOWN,
                        "request.ip"@,
                        "The ip address of the remote '"@ + remote_url@ + "' is '"@ + ips@[i as int].1@
                            + "', which is is not a global ip"@,
                    ));
                    return Err(e);
                }
                i = i + 1;
            }
            Ok(())
        },
    }
}

/// The request sent on to the remote: its URL, its headers, and whether
/// the client's body goes with it.
#[derive(Debug)]
pub struct RemoteRequest {
    pub url: String,
    pub headers: HeaderList,
    pub with_body: bool,
}

/// The headers sent to the remote: the parsed headers, then the client's
/// headers named in the forward list.
pub open spec fn spec_request_headers(client: HeaderSeq, data: RemoteDataView) -> HeaderSeq {
    spec_header_extend(
        spec_header_extend(Seq::<(Seq<char>, Seq<u8>)>::empty(), data.4),
        spec_forward_headers_map(client, data.5),
    )
}

/// The request for the remote of a parsed Bare request: the remote's URL,
/// the headers to send, and the client's body unless the method is `GET` or
/// `HEAD`; `None` where the remote's parts do not make a URI.
pub fn req_from_bare_request(
    client_headers: &HeaderList,
    parsed_req: &BareRemoteData,
    method: &str,
) -> (r: Option<RemoteRequest>)
    ensures
        match r {
            Some(q) => {
                &&& uri_build(
                    parsed_req.remote.scheme@,
                    spec_authority(parsed_req.remote.host@, parsed_req.remote.port),
                    parsed_req.remote.pathquery@,
                ) == Some(q.url@)
                &&& q.headers@ == spec_request_headers(client_headers@, parsed_req.view_parts())
                &&& q.with_body == !spec_null_body_methods().contains(method@)
            },
            None => uri_build(
                parsed_req.remote.scheme@,
                spec_authority(parsed_req.remote.host@, parsed_req.remote.port),
                parsed_req.remote.pathquery@,
            ) is None,
        },
{
    let url = match parsed_req.remote.to_url() {
        Some(u) => u,
        None => return None,
    };
    let mut headers = HeaderList::new();
    headers.extend(&parsed_req.headers);
    let forwarded = get_x_bare_forward_headers_map(client_headers, &parsed_req.forward_headers);
    headers.extend(&forwarded);
    let m = chars_of(method);
    let with_body = !one_of(&m, &null_body_methods());
    Some(RemoteRequest { url, headers, with_body })
}

/// The reason phrase that the `http` crate gives a status code, if any.
pub uninterp spec fn status_reason(status: u16) -> Option<Seq<char>>;

/// `StatusCode::canonical_reason` of the `http` crate for a code from 100
/// to 999: the phrase of its table of registered codes ("OK" for 200, "Not
/// Found" for 404, ...), `None` for a code that the table lacks. The table
/// is named, not written out.
#[verifier::external_body]
fn canonical_reason(status: u16) -> (r: Option<&'static str>)
    requires
        100 <= status <= 999,
    ensures
        match r {
            Some(t) => status_reason(status) == Some(t@),
            None => status_reason(status) is None,
        },
{
    match axum::http::StatusCode::from_u16(status) {
        Ok(code) => code.canonical_reason(),
        Err(_) => None,
    }
}

/// The response a Bare server sends back for the remote's response: its
/// status, its headers, and whether the remote's body follows.
#[derive(Debug)]
pub struct BareResponse {
    pub status: u16,
    pub headers: HeaderList,
    pub with_body: bool,
}

impl BareResponse {
    pub open spec fn view_parts(&self) -> (u16, HeaderSeq, bool) {
        (self.status, self.headers@, self.with_body)
    }
}

/// The status the client sees: the remote's where the pass list holds it,
/// else 200.
pub open spec fn spec_response_status(pass_statuses: Seq<u16>, status: u16) -> u16 {
    if pass_statuses.contains(status) {
        status
    } else {
        200
    }
}

/// The headers the client sees: the remote's headers named in the pass
/// list; then, unless the status passed on is 304, the remote's status, its
/// reason phrase (`Unknown` where it has none) and the remote's headers as
/// JSON text `xb`, whole for version 1 and cut into `x-bare-headers-<n>`
/// pieces when too long for the later versions.
pub open spec fn spec_bare_response_headers(
    data: RemoteDataView,
    status: u16,
    remote: HeaderSeq,
    xb: Seq<u8>,
    reason: Option<Seq<char>>,
    version: BareServerVersion,
) -> HeaderSeq {
    let passed = spec_forward_headers_map(remote, data.6);
    if spec_response_status(data.7, status) == 304 {
        passed
    } else {
        let h1 = spec_header_insert(passed, "x-bare-status"@, encode_utf8(spec_decimal(status as nat)));
        let text = match reason {
            Some(t) => t,
            None => "Unknown"@,
        };
        let h2 = spec_header_insert(h1, "x-bare-status-text"@, encode_utf8(text));
        match version {
            BareServerVersion::V1 => spec_header_insert(h2, "x-bare-headers"@, xb),
            _ => match spec_split_x_bare_headers(xb) {
                Some(split) => spec_header_extend(h2, split),
                None => spec_header_insert(h2, "x-bare-headers"@, xb),
            },
        }
    }
}

/// The status, headers and body presence of the answer to the client.
pub open spec fn spec_bare_response(
    data: RemoteDataView,
    status: u16,
    remote: HeaderSeq,
    xb: Seq<u8>,
    reason: Option<Seq<char>>,
    version: BareServerVersion,
) -> (u16, HeaderSeq, bool) {
    let st = spec_response_status(data.7, status);
    (st, spec_bare_response_headers(data, status, remote, xb, reason, version), !spec_null_body_status(st))
}

pub open spec fn opt_str_view(o: Option<&str>) -> Option<Seq<char>> {
    match o {
        Some(s) => Some(s@),
        None => None,
    }
}

/// Whether a status is in the list.
fn contains_status(v: &Vec<u16>, s: u16) -> (r: bool)
    ensures
        r == v@.contains(s),
{
    let mut i: usize = 0;
    while i < v.len()
        invariant
            i <= v.len(),
            forall|j: int| 0 <= j < i ==> v@[j] != s,
        decreases v.len() - i,
    {
        if v[i] == s {
            assert(v@[i as int] == s);
            return true;
        }
        i = i + 1;
    }
    false
}

/// The answer to the client for the remote's response, given the remote's
/// status, headers, reason phrase and headers as JSON text.
pub fn bare_response_parts(
    parsed_req: &BareRemoteData,
    status: u16,
    remote_headers: &HeaderList,
    xb_headers: &str,
    reason: Option<&str>,
    version: BareServerVersion,
) -> (r: BareResponse)
    requires
        spec_header_value_ok(xb_headers.spec_bytes()),
    ensures
        r.view_parts() == spec_bare_response(
            parsed_req.view_parts(),
            status,
            remote_headers@,
            xb_headers.spec_bytes(),
            opt_str_view(reason),
            version,
        ),
{
    let mut headers = get_x_bare_forward_headers_map(remote_headers, &parsed_req.pass_headers);
    let st = if contains_status(&parsed_req.pass_statuses, status) {
        status
    } else {
        200
    };
    if st != 304 {
        let code = decimal_string(status as u64);
        headers.insert(String::from_str("x-bare-status"), str_bytes(code.as_str()));
        let text = match reason {
            Some(t) => t,
            None => "Unknown",
        };
        headers.insert(String::from_str("x-bare-status-text"), str_bytes(text));
        let xb = str_bytes(xb_headers);
        match version {
            BareServerVersion::V1 => {
                headers.insert(String::from_str("x-bare-headers"), xb);
            },
            _ => match try_split_x_bare_headers_str(xb_headers) {
                Some(split) => {
                    headers.extend(&split);
                },
                None => {
                    headers.insert(String::from_str("x-bare-headers"), xb);
                },
            },
        }
    }
    let with_body = !is_null_body_status(st);
    BareResponse { status: st, headers, with_body }
}

/// The `(name, text)` pairs of headers whose values are visible ASCII.
pub open spec fn spec_header_text_pairs(h: HeaderSeq) -> Seq<(Seq<char>, Seq<char>)> {
    h.map_values(|e: (Seq<char>, Seq<u8>)| (e.0, spec_ascii_text(e.1)))
}

/// The `(name, text)` pairs of headers whose values are visible ASCII.
pub fn header_text_pairs(headers: &HeaderList) -> (pairs: Vec<(String, String)>)
    requires
        forall|i: int| 0 <= i < headers@.len() ==> spec_visible_ascii(#[trigger] headers@[i].1),
    ensures
        crate::json::spec_pairs_view(pairs@) == spec_header_text_pairs(headers@),
{
    let mut pairs: Vec<(String, String)> = Vec::new();
    let mut i: usize = 0;
    while i < headers.entries.len()
        invariant
            i <= headers.entries.len(),
            headers@.len() == headers.entries.len(),
            forall|j: int| 0 <= j < headers@.len() ==> spec_visible_ascii(#[trigger] headers@[j].1),
            crate::json::spec_pairs_view(pairs@) == spec_header_text_pairs(headers@.take(i as int)),
        decreases headers.entries.len() - i,
    {
        assert(spec_visible_ascii(headers@[i as int].1));
        let text = value_text(&headers.entries[i].1);
        let name = headers.entries[i].0.clone();
        pairs.push((name, string_from_chars(&text)));
        assert(spec_header_text_pairs(headers@.take(i + 1)) =~= spec_header_text_pairs(
            headers@.take(i as int),
        ).push(spec_header_text_pairs(headers@)[i as int]));
        assert(crate::json::spec_pairs_view(pairs@) =~= spec_header_text_pairs(headers@.take(i + 1)));
        i = i + 1;
    }
    assert(headers@.take(headers@.len() as int) =~= headers@);
    pairs
}

/// The answer to the client for the remote's response (status 100 to 999,
/// header values visible ASCII, as `to_str` requires). The remote's headers
/// go along as the JSON text of the map they collect into, whose member
/// order the map's hasher decides; `None` where that text would not be a
/// valid header value.
pub fn bare_response_from_res(
    parsed_req: &BareRemoteData,
    status: u16,
    remote_headers: &HeaderList,
    version: BareServerVersion,
) -> (r: Option<BareResponse>)
    requires
        100 <= status <= 999,
        forall|i: int| 0 <= i < remote_headers@.len() ==> spec_visible_ascii(#[trigger] remote_headers@[i].1),
    ensures
        exists|xb: Seq<char>|
            {
                &&& spec_is_json_object_of(xb, spec_pairs_map(spec_header_text_pairs(remote_headers@)))
                &&& match r {
                    Some(resp) => spec_header_value_ok(encode_utf8(xb)) && resp.view_parts()
                        == spec_bare_response(
                        parsed_req.view_parts(),
                        status,
                        remote_headers@,
                        encode_utf8(xb),
                        status_reason(status),
                        version,
                    ),
                    None => !spec_header_value_ok(encode_utf8(xb)),
                }
            },
{
    let pairs = header_text_pairs(remote_headers);
    let xb = json_string_map(&pairs);
    let reason = canonical_reason(status);
    if !is_header_value_ok(&str_bytes(xb.as_str())) {
        return None;
    }
    Some(bare_response_parts(parsed_req, status, remote_headers, xb.as_str(), reason, version))
}

} // verus!

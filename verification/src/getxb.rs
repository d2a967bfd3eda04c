//! Reading the `X-Bare-*` request headers.
use vstd::prelude::*;
use vstd::string::StringExecFns;
use vstd::utf8::encode_utf8;
use crate::consts::{
    default_cache_forward_headers, default_cache_pass_headers, default_forward_headers,
    default_pass_headers, forbidden_forward_headers, forbidden_pass_headers,
    forbidden_send_headers, one_of, owned_words, spec_default_cache_forward_headers,
    spec_default_cache_pass_headers, spec_default_forward_headers, spec_default_pass_headers,
    spec_forbidden_forward_headers, spec_forbidden_pass_headers, spec_forbidden_send_headers,
    spec_valid_protocols, valid_protocols, views, CACHE_NOT_MODIFIED,
};
use crate::err::{bare_error, BareError, BareErrorCode, ErrorView};
use crate::headers::{
    clone_bytes, is_header_text, is_header_value_ok, parse_header_name, spec_ascii_text, spec_header_get, spec_header_insert, spec_header_name,
    spec_header_value_ok, spec_visible_ascii, str_bytes, value_text, HeaderList, HeaderSeq,
};
use crate::json::{
    json_array_items, json_object_members, json_string_array, members_view, opt_items_view,
    opt_members_view, parse_json_array, parse_json_object, spec_json_string_array, JsonValue,
};
use crate::splitjoin::{
    bytes_result_view, join_x_bare_headers, join_x_bare_headers_checked, spec_join_ok, spec_join_x_bare_headers,
};
use crate::structs::{parse_uri, uri_parse, BareServerInfo, BareServerVersion, UriParts, UriView};
use crate::text::{
    chars_of, list_items, parse_u16, push_str, spec_list_items, spec_parse_u16, spec_split,
    spec_trim, split_chars, string_from_chars, trim_chars,
};

verus! {

/// The header's value is text (`HeaderValue::to_str` would not fail).
pub open spec fn spec_text_header(headers: HeaderList, name: Seq<char>) -> bool {
    headers.spec_get(name) matches Some(v) ==> spec_visible_ascii(v)
}

/// The error for a header that was not sent.
pub open spec fn spec_missing(id: Seq<char>) -> ErrorView {
    (BareErrorCode::MISSING_BARE_HEADER, id, "Header was not specified."@)
}

/// A required header read as text.
pub open spec fn spec_required_text(headers: HeaderList, name: Seq<char>, id: Seq<char>) -> Result<Seq<char>, ErrorView> {
    match headers.spec_get(name) {
        Some(v) => Ok(spec_ascii_text(v)),
        None => Err(spec_missing(id)),
    }
}

pub open spec fn string_result_view(r: Result<String, BareError>) -> Result<Seq<char>, ErrorView> {
    match r {
        Ok(s) => Ok(s@),
        Err(e) => Err(e@),
    }
}

/// A required header as text.
fn required_text(headers: &HeaderList, name: &str, id: &str) -> (r: Result<String, BareError>)
    requires
        spec_text_header(*headers, name@),
    ensures
        string_result_view(r) == spec_required_text(*headers, name@, id@),
{
    match headers.get(name) {
        Some(v) => {
            let t = value_text(v);
            Ok(string_from_chars(&t))
        },
        None => Err(bare_error(
            BareErrorCode::MISSING_BARE_HEADER,
            id,
            String::from_str("Header was not specified."),
        )),
    }
}

/// `x-bare-protocol`: one of `http:`, `https:`, `ws:`, `wss:`, returned
/// without its final colon.
pub open spec fn spec_x_bare_protocol(headers: HeaderList) -> Result<Seq<char>, ErrorView> {
    let id = "request.headers.x-bare-protocol"@;
    match headers.spec_get("x-bare-protocol"@) {
        Some(v) => if spec_valid_protocols().contains(spec_ascii_text(v)) {
            Ok(spec_ascii_text(v).drop_last())
        } else {
            Err((BareErrorCode::INVALID_BARE_HEADER, id, "Header was invalid"@))
        },
        None => Err(spec_missing(id)),
    }
}

pub fn get_x_bare_protocol(headers: &HeaderList) -> (r: Result<String, BareError>)
    requires
        spec_text_header(*headers, "x-bare-protocol"@),
    ensures
        string_result_view(r) == spec_x_bare_protocol(*headers),
{
    match headers.get("x-bare-protocol") {
        Some(value) => {
            let mut scheme = value_text(value);
            let protocols = valid_protocols();
            if !one_of(&scheme, &protocols) {
                return Err(bare_error(
                    BareErrorCode::INVALID_BARE_HEADER,
                    "request.headers.x-bare-protocol",
                    String::from_str("Header was invalid"),
                ));
            }
            let ghost full = scheme@;
            assert(full.len() > 0) by {
                let i = choose|i: int| 0 <= i < views(protocols@).len() && views(protocols@)[i] == full;
                assert(spec_valid_protocols()[i] == full);
                reveal_strlit("http:");
                reveal_strlit("https:");
                reveal_strlit("ws:");
                reveal_strlit("wss:");
            }
            scheme.pop();  // remove the ":" at the end
            assert(scheme@ =~= full.drop_last());
            Ok(string_from_chars(&scheme))
        },
        None => Err(bare_error(
            BareErrorCode::MISSING_BARE_HEADER,
            "request.headers.x-bare-protocol",
            String::from_str("Header was not specified."),
        )),
    }
}

/// `x-bare-host` as text.
pub fn get_x_bare_host(headers: &HeaderList) -> (r: Result<String, BareError>)
    requires
        spec_text_header(*headers, "x-bare-host"@),
    ensures
        string_result_view(r) == spec_required_text(*headers, "x-bare-host"@, "request.headers.x-bare-host"@),
{
    required_text(headers, "x-bare-host", "request.headers.x-bare-host")
}

/// `x-bare-path` as text.
pub fn get_x_bare_path(headers: &HeaderList) -> (r: Result<String, BareError>)
    requires
        spec_text_header(*headers, "x-bare-path"@),
    ensures
        string_result_view(r) == spec_required_text(*headers, "x-bare-path"@, "request.headers.x-bare-path"@),
{
    required_text(headers, "x-bare-path", "request.headers.x-bare-path")
}

/// `x-bare-id` as text.
pub fn get_x_bare_id(headers: &HeaderList) -> (r: Result<String, BareError>)
    requires
        spec_text_header(*headers, "x-bare-id"@),
    ensures
        string_result_view(r) == spec_required_text(*headers, "x-bare-id"@, "request.headers.x-bare-id"@),
{
    required_text(headers, "x-bare-id", "request.headers.x-bare-id")
}

/// `x-bare-port`: a `u16` as `u16::from_str` reads it.
pub open spec fn spec_x_bare_port(headers: HeaderList) -> Result<u16, ErrorView> {
    match headers.spec_get("x-bare-port"@) {
        Some(v) => match spec_parse_u16(spec_ascii_text(v)) {
            Some(p) => Ok(p),
            None => Err(
                (
                    BareErrorCode::INVALID_BARE_HEADER,
                    "request.headers.x-bare-port"@,
                    "Header was not a valid integer."@,
                ),
            ),
        },
        None => Err(spec_missing("request.headers.x-bare-port"@)),
    }
}

pub fn get_x_bare_port(headers: &HeaderList) -> (r: Result<u16, BareError>)
    requires
        spec_text_header(*headers, "x-bare-port"@),
    ensures
        (match r {
            Ok(p) => Ok(p),
            Err(e) => Err(e@),
        }) == spec_x_bare_port(*headers),
{
    match headers.get("x-bare-port") {
        Some(value) => {
            let t = value_text(value);
            match parse_u16(&t) {
                Some(p) => Ok(p),
                None => Err(bare_error(
                    BareErrorCode::INVALID_BARE_HEADER,
                    "request.headers.x-bare-port",
                    String::from_str("Header was not a valid integer."),
                )),
            }
        },
        None => Err(bare_error(
            BareErrorCode::MISSING_BARE_HEADER,
            "request.headers.x-bare-port",
            String::from_str("Header was not specified."),
        )),
    }
}

/// `x-bare-url` parsed as a URI.
pub open spec fn spec_x_bare_url(headers: HeaderList) -> Result<UriView, ErrorView> {
    match headers.spec_get("x-bare-url"@) {
        Some(v) => match uri_parse(spec_ascii_text(v)) {
            Ok(u) => Ok(u),
            Err(e) => Err(
                (
                    BareErrorCode::INVALID_BARE_HEADER,
                    "request.header.x-bare-url"@,
                    "There was an Error while parsing the URL: "@ + e,
                ),
            ),
        },
        None => Err(spec_missing("request.headers.x-bare-id"@)),
    }
}

pub fn get_x_bare_url(headers: &HeaderList) -> (r: Result<UriParts, BareError>)
    requires
        spec_text_header(*headers, "x-bare-url"@),
    ensures
        (match r {
            Ok(u) => Ok(u.view_parts()),
            Err(e) => Err(e@),
        }) == spec_x_bare_url(*headers),
{
    match headers.get("x-bare-url") {
        Some(value) => {
            let t = string_from_chars(&value_text(value));
            match parse_uri(t.as_str()) {
                Ok(u) => Ok(u),
                Err(e) => {
                    let mut message = String::from_str("There was an Error while parsing the URL: ");
                    crate::text::push_str(&mut message, e.as_str());
                    Err(bare_error(BareErrorCode::INVALID_BARE_HEADER, "request.header.x-bare-url", message))
                },
            }
        },
        None => Err(bare_error(
            BareErrorCode::MISSING_BARE_HEADER,
            "request.headers.x-bare-id",
            String::from_str("Header was not specified."),
        )),
    }
}

} // verus!

verus! {

/// The text that holds the headers to send: `x-bare-headers`, or (versions
/// 2 and 3, where it is missing) the pieces `x-bare-headers-<i>` joined.
pub open spec fn spec_x_bare_headers_source(headers: HeaderList, version: BareServerVersion) -> Result<Seq<u8>, ErrorView> {
    match headers.spec_get("x-bare-headers"@) {
        Some(v) => Ok(v),
        None => match version {
            BareServerVersion::V1 => Err(spec_missing("request.headers.x-bare-headers"@)),
            _ => spec_join_x_bare_headers(headers@),
        },
    }
}

/// Reading the source does not panic.
pub open spec fn spec_x_bare_headers_source_ok(headers: HeaderList, version: BareServerVersion) -> bool {
    (version != BareServerVersion::V1 && headers.spec_get("x-bare-headers"@) is None) ==> spec_join_ok(headers@)
}

/// The text that holds the headers to send, still to be parsed as JSON.
pub fn x_bare_headers_source(headers: &HeaderList, bare_info: &BareServerInfo) -> (r: Result<Vec<u8>, BareError>)
    requires
        spec_x_bare_headers_source_ok(*headers, bare_info.version),
    ensures
        bytes_result_view(r) == spec_x_bare_headers_source(*headers, bare_info.version),
{
    match headers.get("x-bare-headers") {
        Some(v) => Ok(clone_bytes(v)),
        None => match bare_info.version {
            BareServerVersion::V1 => Err(bare_error(
                BareErrorCode::MISSING_BARE_HEADER,
                "request.headers.x-bare-headers",
                String::from_str("Header was not specified."),
            )),
            BareServerVersion::V2 | BareServerVersion::V3 => join_x_bare_headers(headers),
        },
    }
}

pub open spec fn spec_member_id() -> Seq<char> {
    "bare.headers.x-bare-headers"@
}

/// All the items of the array are strings.
pub open spec fn spec_all_strings(items: Seq<JsonValue>) -> bool {
    forall|i: int| 0 <= i < items.len() ==> (#[trigger] items[i]) is Str
}

pub open spec fn spec_strings(items: Seq<JsonValue>) -> Seq<Seq<char>> {
    Seq::new(items.len(), |i: int| items[i]->Str_0@)
}

/// One member of the `x-bare-headers` object added to the headers made so
/// far; `None` where the input cannot be read (a name or value that is not a
/// valid header name or value).
pub open spec fn spec_member_step(h: HeaderSeq, key: Seq<char>, value: JsonValue) -> Option<Result<HeaderSeq, ErrorView>> {
    if spec_forbidden_send_headers().contains(key) {
        Some(
            Err(
                (
                    BareErrorCode::FORBIDDEN_BARE_HEADER,
                    spec_member_id(),
                    "A forbidden header was passed: '"@ + key + "'."@,
                ),
            ),
        )
    } else {
        match value {
            JsonValue::Str(s) => match spec_header_name(key) {
                Some(n) => if spec_header_value_ok(encode_utf8(s@)) {
                    Some(Ok(spec_header_insert(h, n, encode_utf8(s@))))
                } else {
                    None
                },
                None => None,
            },
            JsonValue::Array(items) => if spec_all_strings(items@) {
                match spec_header_name(key) {
                    Some(n) => {
                        let t = encode_utf8(spec_json_string_array(spec_strings(items@)));
                        if spec_header_value_ok(t) {
                            Some(Ok(spec_header_insert(h, n, t)))
                        } else {
                            None
                        }
                    },
                    None => None,
                }
            } else {
                Some(
                    Err(
                        (
                            BareErrorCode::INVALID_BARE_HEADER,
                            spec_member_id(),
                            "Header was not an array of Strings."@,
                        ),
                    ),
                )
            },
            _ => Some(
                Err(
                    (
                        BareErrorCode::INVALID_BARE_HEADER,
                        spec_member_id(),
                        "Header was not a String or Array of Strings."@,
                    ),
                ),
            ),
        }
    }
}

/// The headers that the members of the `x-bare-headers` object describe, in
/// order; `None` where the input cannot be read.
pub open spec fn spec_headers_from_members(members: Seq<(Seq<char>, JsonValue)>) -> Option<Result<HeaderSeq, ErrorView>>
    decreases members.len(),
{
    if members.len() == 0 {
        Some(Ok(Seq::<(Seq<char>, Seq<u8>)>::empty()))
    } else {
        match spec_headers_from_members(members.drop_last()) {
            Some(Ok(h)) => spec_member_step(h, members.last().0, members.last().1),
            other => other,
        }
    }
}

/// The headers to send, from the source text and the members of the JSON
/// object that it holds (`None` where it holds none).
pub open spec fn spec_x_bare_headers(headers: HeaderList, version: BareServerVersion, members: Option<Seq<(Seq<char>, JsonValue)>>) -> Option<Result<HeaderSeq, ErrorView>> {
    match spec_x_bare_headers_source(headers, version) {
        Err(e) => Some(Err(e)),
        Ok(_) => match members {
            Some(ms) => spec_headers_from_members(ms),
            None => Some(
                Err(
                    (
                        BareErrorCode::INVALID_BARE_HEADER,
                        spec_member_id(),
                        "Header was not an array of Strings."@,
                    ),
                ),
            ),
        },
    }
}

pub open spec fn headers_result_view(r: Result<HeaderList, BareError>) -> Result<HeaderSeq, ErrorView> {
    match r {
        Ok(h) => Ok(h@),
        Err(e) => Err(e@),
    }
}

/// Whether a header, where it is given, reads as text.
pub fn text_header(headers: &HeaderList, name: &str) -> (r: bool)
    ensures
        r == spec_text_header(*headers, name@),
{
    match headers.get(name) {
        Some(v) => is_header_text(v),
        None => true,
    }
}

/// The source of the headers to send can be read: the pieces can be
/// joined, and the text is text.
pub open spec fn spec_source_readable(headers: HeaderList, version: BareServerVersion) -> bool {
    &&& spec_x_bare_headers_source_ok(headers, version)
    &&& spec_x_bare_headers_source(headers, version) matches Ok(t) ==> spec_visible_ascii(t)
}

/// [`x_bare_headers_source`] for any headers: `None` exactly where the
/// source cannot be read (see [`spec_source_readable`]).
pub fn x_bare_headers_source_checked(headers: &HeaderList, bare_info: &BareServerInfo) -> (r: Option<Result<Vec<u8>, BareError>>)
    ensures
        match r {
            Some(res) => spec_source_readable(*headers, bare_info.version)
                && bytes_result_view(res) == spec_x_bare_headers_source(*headers, bare_info.version),
            None => !spec_source_readable(*headers, bare_info.version),
        },
{
    match headers.get("x-bare-headers") {
        Some(v) => if is_header_text(v) {
            Some(Ok(clone_bytes(v)))
        } else {
            None
        },
        None => match bare_info.version {
            BareServerVersion::V1 => Some(Err(bare_error(
                BareErrorCode::MISSING_BARE_HEADER,
                "request.headers.x-bare-headers",
                String::from_str("Header was not specified."),
            ))),
            BareServerVersion::V2 | BareServerVersion::V3 => match join_x_bare_headers_checked(headers) {
                None => None,
                Some(Err(e)) => Some(Err(e)),
                Some(Ok(t)) => if is_header_text(&t) {
                    Some(Ok(t))
                } else {
                    None
                },
            },
        },
    }
}

/// The members of the JSON object that the source text holds, `None`
/// where there is no source or it holds no JSON object.
pub open spec fn spec_source_members(headers: HeaderList, version: BareServerVersion) -> Option<Seq<(Seq<char>, JsonValue)>> {
    match spec_x_bare_headers_source(headers, version) {
        Ok(t) => json_object_members(t),
        Err(_) => None,
    }
}

/// What [`get_x_bare_headers`] gives.
pub open spec fn spec_get_x_bare_headers(headers: HeaderList, version: BareServerVersion) -> Option<Result<HeaderSeq, ErrorView>> {
    spec_x_bare_headers(headers, version, spec_source_members(headers, version))
}

/// The headers to send, given the members of the source's JSON object, read
/// without panicking: `None` where the source or a member cannot be read.
pub open spec fn spec_read_x_bare_headers(headers: HeaderList, version: BareServerVersion, members: Option<Seq<(Seq<char>, JsonValue)>>) -> Option<Result<HeaderSeq, ErrorView>> {
    if !spec_source_readable(headers, version) {
        None
    } else {
        spec_x_bare_headers(headers, version, members)
    }
}

/// What [`get_x_bare_headers_checked`] gives.
pub open spec fn spec_read_headers(headers: HeaderList, info: BareServerInfo) -> Option<Result<HeaderSeq, ErrorView>> {
    spec_read_x_bare_headers(headers, info.version, spec_source_members(headers, info.version))
}

pub open spec fn opt_headers_result_view(r: Option<Result<HeaderList, BareError>>) -> Option<Result<HeaderSeq, ErrorView>> {
    match r {
        Some(res) => Some(headers_result_view(res)),
        None => None,
    }
}

/// [`get_x_bare_headers`] for any request: `None` exactly where the original
/// panics (a source that is not text, or a member that is not a header name
/// or value).
pub fn get_x_bare_headers_checked(headers: &HeaderList, bare_info: BareServerInfo) -> (r: Option<Result<HeaderList, BareError>>)
    ensures
        opt_headers_result_view(r) == spec_read_headers(*headers, bare_info),
{
    let source = match x_bare_headers_source_checked(headers, &bare_info) {
        None => return None,
        Some(Err(e)) => return Some(Err(e)),
        Some(Ok(t)) => t,
    };
    let members = parse_json_object(&source);
    x_bare_headers_from_json(headers, bare_info, &members)
}

/// Gets the headers to send to the remote. These must always be given: as
/// `x-bare-headers`, or in versions 2 and 3 as the pieces
/// `x-bare-headers-<i>` (see [`x_bare_headers_source`]). The text is parsed
/// as a JSON object and its members read by [`x_bare_headers_from_json`].
pub fn get_x_bare_headers(headers: &HeaderList, bare_info: BareServerInfo) -> (r: Result<HeaderList, BareError>)
    requires
        spec_x_bare_headers_source_ok(*headers, bare_info.version),
        spec_x_bare_headers_source(*headers, bare_info.version) matches Ok(t) ==> spec_visible_ascii(t),
        spec_get_x_bare_headers(*headers, bare_info.version) is Some,
    ensures
        spec_get_x_bare_headers(*headers, bare_info.version) == Some(headers_result_view(r)),
{
    match get_x_bare_headers_checked(headers, bare_info) {
        Some(r) => r,
        None => unreached(),
    }
}

/// The headers to send to the remote, given `members`: the members of the
/// JSON object that the source text (see [`x_bare_headers_source`]) holds,
/// or `None` where it holds none. Each member names a header; its value is
/// a string, or an array of strings sent as their JSON text; the names
/// `connection`, `content-length` and `transfer-encoding` are forbidden.
/// `None` exactly where the source or a member cannot be read.
#[verifier::loop_isolation(false)]
pub fn x_bare_headers_from_json(
    headers: &HeaderList,
    bare_info: BareServerInfo,
    members: &Option<Vec<(String, JsonValue)>>,
) -> (r: Option<Result<HeaderList, BareError>>)
    ensures
        opt_headers_result_view(r) == spec_read_x_bare_headers(*headers, bare_info.version, opt_members_view(*members)),
{
    match x_bare_headers_source_checked(headers, &bare_info) {
        None => return None,
        Some(Err(e)) => return Some(Err(e)),
        Some(Ok(_)) => {},
    }
    let members = match members {
        Some(ms) => ms,
        None => {
            return Some(Err(bare_error(
                BareErrorCode::INVALID_BARE_HEADER,
                "bare.headers.x-bare-headers",
                String::from_str("Header was not an array of Strings."),
            )));
        },
    };
    let ghost mv = members_view(members@);
    let forbidden = forbidden_send_headers();
    let mut new_headers = HeaderList::new();
    let mut i: usize = 0;
    while i < members.len()
        invariant
            i <= members@.len(),
            mv == members_view(members@),
            views(forbidden@) == spec_forbidden_send_headers(),
            spec_headers_from_members(mv.take(i as int)) == Some(
                Ok::<HeaderSeq, ErrorView>(new_headers@),
            ),
        decreases members@.len() - i,
    {
        proof {
            assert(mv.take(i + 1).drop_last() =~= mv.take(i as int));
            assert(mv.take(i + 1).last() == mv[i as int]);
            assert(mv[i as int] == (members@[i as int].0@, members@[i as int].1));
            assert(spec_headers_from_members(mv.take(i + 1)) == spec_member_step(
                new_headers@,
                members@[i as int].0@,
                members@[i as int].1,
            ));
        }
        let key = &members[i].0;
        let key_chars = chars_of(key.as_str());
        if one_of(&key_chars, &forbidden) {
            let mut message = String::from_str("A forbidden header was passed: '");
            push_str(&mut message, key.as_str());
            push_str(&mut message, "'.");
            proof {
                lemma_members_err_stays(mv, (i + 1) as int);
            }
            return Some(Err(bare_error(BareErrorCode::FORBIDDEN_BARE_HEADER, "bare.headers.x-bare-headers", message)));
        }
        match &members[i].1 {
            JsonValue::Str(string) => {
                let name = match parse_header_name(key.as_str()) {
                    Some(n) => n,
                    None => {
                        proof {
                            lemma_members_err_stays(mv, (i + 1) as int);
                        }
                        return None;
                    },
                };
                let value = str_bytes(string.as_str());
                if !is_header_value_ok(&value) {
                    proof {
                        lemma_members_err_stays(mv, (i + 1) as int);
                    }
                    return None;
                }
                new_headers.insert(name, value);
            },
            JsonValue::Array(array) => {
                let mut header_array: Vec<String> = Vec::new();
                let mut k: usize = 0;
                while k < array.len()
                    invariant
                        k <= array@.len(),
                        header_array@.len() == k,
                        forall|j: int| 0 <= j < k ==> (#[trigger] array@[j]) is Str,
                        forall|j: int| 0 <= j < k ==> #[trigger] header_array@[j]@ == array@[j]->Str_0@,
                    decreases array@.len() - k,
                {
                    match &array[k] {
                        JsonValue::Str(s) => {
                            header_array.push(s.clone());
                        },
                        _ => {
                            proof {
                                lemma_members_err_stays(mv, (i + 1) as int);
                            }
                            return Some(Err(bare_error(
                                BareErrorCode::INVALID_BARE_HEADER,
                                "bare.headers.x-bare-headers",
                                String::from_str("Header was not an array of Strings."),
                            )));
                        },
                    }
                    k = k + 1;
                }
                assert(header_array@.map_values(|x: String| x@) =~= spec_strings(array@));
                let name = match parse_header_name(key.as_str()) {
                    Some(n) => n,
                    None => {
                        proof {
                            lemma_members_err_stays(mv, (i + 1) as int);
                        }
                        return None;
                    },
                };
                let text = json_string_array(&header_array);
                let value = str_bytes(text.as_str());
                if !is_header_value_ok(&value) {
                    proof {
                        lemma_members_err_stays(mv, (i + 1) as int);
                    }
                    return None;
                }
                new_headers.insert(name, value);
            },
            _ => {
                proof {
                    lemma_members_err_stays(mv, (i + 1) as int);
                }
                return Some(Err(bare_error(
                    BareErrorCode::INVALID_BARE_HEADER,
                    "bare.headers.x-bare-headers",
                    String::from_str("Header was not a String or Array of Strings."),
                )));
            },
        }
        i = i + 1;
    }
    assert(mv.take(members@.len() as int) =~= mv);
    Some(Ok(new_headers))
}

/// Once the members give an error or cannot be read, the later members
/// leave that unchanged.
proof fn lemma_members_err_stays(ms: Seq<(Seq<char>, JsonValue)>, j: int)
    requires
        0 <= j <= ms.len(),
        !(spec_headers_from_members(ms.take(j)) matches Some(Ok(_))),
    ensures
        spec_headers_from_members(ms) == spec_headers_from_members(ms.take(j)),
    decreases ms.len() - j,
{
    if j < ms.len() {
        assert(ms.take(j + 1).drop_last() =~= ms.take(j));
        lemma_members_err_stays(ms, j + 1);
    } else {
        assert(ms.take(j) =~= ms);
    }
}

} // verus!

verus! {

pub open spec fn names_view(v: Seq<String>) -> Seq<Seq<char>> {
    v.map_values(|s: String| s@)
}

pub open spec fn lists_view(v: Seq<Vec<char>>) -> Seq<Seq<char>> {
    v.map_values(|s: Vec<char>| s@)
}

pub open spec fn names_result_view(r: Result<Vec<String>, BareError>) -> Result<Seq<Seq<char>>, ErrorView> {
    match r {
        Ok(v) => Ok(names_view(v@)),
        Err(e) => Err(e@),
    }
}

pub open spec fn opt_names_result_view(r: Option<Result<Vec<String>, BareError>>) -> Option<Result<Seq<Seq<char>>, ErrorView>> {
    match r {
        Some(res) => Some(names_result_view(res)),
        None => None,
    }
}

/// Header names from a comma separated list added after `acc`; a name on the
/// forbidden pass list is refused. `None` where the input cannot be read (an item
/// that is not a header name).
pub open spec fn spec_named_list(acc: Seq<Seq<char>>, items: Seq<Seq<char>>) -> Option<Result<Seq<Seq<char>>, ErrorView>>
    decreases items.len(),
{
    if items.len() == 0 {
        Some(Ok(acc))
    } else {
        match spec_named_list(acc, items.drop_last()) {
            Some(Ok(names)) => {
                let item = items.last();
                if spec_forbidden_pass_headers().contains(item) {
                    Some(
                        Err(
                            (
                                BareErrorCode::FORBIDDEN_BARE_HEADER,
                                "request.headers.x-bare-pass-headers"@,
                                "A forbidden header was passed: '"@ + item + "'."@,
                            ),
                        ),
                    )
                } else {
                    match spec_header_name(item) {
                        Some(n) => Some(Ok(names.push(n))),
                        None => None,
                    }
                }
            },
            other => other,
        }
    }
}

proof fn lemma_named_list_err(acc: Seq<Seq<char>>, items: Seq<Seq<char>>, j: int)
    requires
        0 <= j <= items.len(),
        !(spec_named_list(acc, items.take(j)) matches Some(Ok(_))),
    ensures
        spec_named_list(acc, items) == spec_named_list(acc, items.take(j)),
    decreases items.len() - j,
{
    if j < items.len() {
        assert(items.take(j + 1).drop_last() =~= items.take(j));
        lemma_named_list_err(acc, items, j + 1);
    } else {
        assert(items.take(j) =~= items);
    }
}

/// Adds the names of a comma separated list to `acc` (see [`spec_named_list`]).
fn push_named_list(acc: Vec<String>, items: &Vec<Vec<char>>) -> (r: Option<Result<Vec<String>, BareError>>)
    ensures
        spec_named_list(names_view(acc@), lists_view(items@)) == opt_names_result_view(r),
{
    let ghost init = names_view(acc@);
    let ghost all = lists_view(items@);
    let forbidden = forbidden_pass_headers();
    let mut names = acc;
    let mut i: usize = 0;
    while i < items.len()
        invariant
            i <= items@.len(),
            all == lists_view(items@),
            init == names_view(acc@),
            views(forbidden@) == spec_forbidden_pass_headers(),
            spec_named_list(init, all.take(i as int)) == Some(Ok::<Seq<Seq<char>>, ErrorView>(names_view(names@))),
        decreases items@.len() - i,
    {
        proof {
            assert(all.take(i + 1).drop_last() =~= all.take(i as int));
            assert(all.take(i + 1).last() == items@[i as int]@);
        }
        let item = &items[i];
        if one_of(item, &forbidden) {
            let mut message = String::from_str("A forbidden header was passed: '");
            let text = string_from_chars(item);
            push_str(&mut message, text.as_str());
            push_str(&mut message, "'.");
            let e = bare_error(BareErrorCode::FORBIDDEN_BARE_HEADER, "request.headers.x-bare-pass-headers", message);
            proof {
                assert(spec_forbidden_pass_headers().contains(all.take(i + 1).last()));
                assert(spec_named_list(init, all.take(i + 1)) == Some(Err::<Seq<Seq<char>>, ErrorView>(e@)));
                lemma_named_list_err(init, all, i + 1);
            }
            return Some(Err(e));
        }
        let text = string_from_chars(item);
        match parse_header_name(text.as_str()) {
            Some(n) => {
                let ghost before = names@;
                names.push(n);
                assert(names_view(names@) =~= names_view(before).push(n@));
            },
            None => {
                proof {
                    lemma_named_list_err(init, all, i + 1);
                }
                return None;
            },
        }
        i = i + 1;
    }
    assert(all.take(items@.len() as int) =~= all);
    Some(Ok(names))
}

/// The items of the list `s` (see [`spec_list_items`]).
fn list_items_of(s: &Vec<char>) -> (r: Vec<Vec<char>>)
    ensures
        lists_view(r@) == spec_list_items(s@),
{
    let r = list_items(s);
    assert(lists_view(r@) =~= spec_list_items(s@));
    r
}

/// The headers passed back by default, with the cache ones when asked for.
pub open spec fn spec_default_pass(cache: bool) -> Seq<Seq<char>> {
    if cache {
        spec_default_pass_headers() + spec_default_cache_pass_headers()
    } else {
        spec_default_pass_headers()
    }
}

/// `x-bare-pass-headers`: optional; where it is absent no header is passed
/// back, where it is given the default pass headers and then those it lists.
pub open spec fn spec_x_bare_pass_headers(headers: HeaderList, cache: bool) -> Option<Result<Seq<Seq<char>>, ErrorView>> {
    match headers.spec_get("x-bare-pass-headers"@) {
        None => Some(Ok(Seq::<Seq<char>>::empty())),
        Some(v) => spec_named_list(spec_default_pass(cache), spec_list_items(spec_ascii_text(v))),
    }
}

/// Appends owned copies of the listed words.
fn extend_words(v: &mut Vec<String>, list: &Vec<&str>)
    ensures
        names_view(final(v)@) == names_view(old(v)@) + views(list@),
{
    let w = owned_words(list);
    let ghost before = v@;
    let mut i: usize = 0;
    while i < w.len()
        invariant
            i <= w@.len(),
            w@.map_values(|s: String| s@) == views(list@),
            names_view(v@) =~= names_view(before) + views(list@).take(i as int),
        decreases w@.len() - i,
    {
        let ghost prev = v@;
        v.push(w[i].clone());
        assert(names_view(v@) =~= names_view(prev).push(w@[i as int]@));
        assert(w@.map_values(|s: String| s@)[i as int] == w@[i as int]@);
        i = i + 1;
    }
    assert(views(list@).take(w@.len() as int) =~= views(list@));
}

/// The headers of the remote's response that are passed back to the client.
/// The header is optional in all versions: without it the list is empty.
pub fn get_x_bare_pass_headers(headers: &HeaderList, cache: bool) -> (r: Result<Vec<String>, BareError>)
    requires
        spec_text_header(*headers, "x-bare-pass-headers"@),
        spec_x_bare_pass_headers(*headers, cache) is Some,
    ensures
        spec_x_bare_pass_headers(*headers, cache) == Some(names_result_view(r)),
{
    match get_x_bare_pass_headers_checked(headers, cache) {
        Some(r) => r,
        None => unreached(),
    }
}

/// The pass headers read without panicking: `None` where the header is not
/// text or lists something that is not a header name.
pub open spec fn spec_read_pass_headers(headers: HeaderList, cache: bool) -> Option<Result<Seq<Seq<char>>, ErrorView>> {
    if !spec_text_header(headers, "x-bare-pass-headers"@) {
        None
    } else {
        spec_x_bare_pass_headers(headers, cache)
    }
}

/// [`get_x_bare_pass_headers`] for any request: `None` exactly where the
/// original panics.
pub fn get_x_bare_pass_headers_checked(headers: &HeaderList, cache: bool) -> (r: Option<Result<Vec<String>, BareError>>)
    ensures
        opt_names_result_view(r) == spec_read_pass_headers(*headers, cache),
{
    let v = match headers.get("x-bare-pass-headers") {
        None => {
            let none: Vec<String> = Vec::new();
            assert(names_view(none@) =~= Seq::<Seq<char>>::empty());
            return Some(Ok(none));
        },
        Some(v) => v,
    };
    if !is_header_text(v) {
        return None;
    }
    let mut pass_headers: Vec<String> = Vec::new();
    extend_words(&mut pass_headers, &default_pass_headers());
    if cache {
        extend_words(&mut pass_headers, &default_cache_pass_headers());
    }
    assert(names_view(pass_headers@) =~= spec_default_pass(cache));
    let text = value_text(v);
    let items = list_items_of(&text);
    push_named_list(pass_headers, &items)
}

} // verus!

verus! {

/// The headers forwarded by default for a version: none for version 1, all
/// the defaults for version 2, the first two for version 3; the cache ones
/// added when asked for (versions 2 and 3).
pub open spec fn spec_default_forward(info: BareServerInfo) -> Seq<Seq<char>> {
    let cache_part = if info.cache {
        spec_default_cache_forward_headers()
    } else {
        Seq::<Seq<char>>::empty()
    };
    match info.version {
        BareServerVersion::V1 => Seq::<Seq<char>>::empty(),
        BareServerVersion::V2 => spec_default_forward_headers() + cache_part,
        BareServerVersion::V3 => spec_default_forward_headers().take(2) + cache_part,
    }
}

/// The names of a version 1 list (a JSON array) added after `acc`: strings
/// name headers, other items are skipped; a name on the forbidden forward
/// list is refused. `None` where the input cannot be read.
pub open spec fn spec_v1_forward(acc: Seq<Seq<char>>, list: Seq<JsonValue>) -> Option<Result<Seq<Seq<char>>, ErrorView>>
    decreases list.len(),
{
    if list.len() == 0 {
        Some(Ok(acc))
    } else {
        match spec_v1_forward(acc, list.drop_last()) {
            Some(Ok(names)) => match list.last() {
                JsonValue::Str(h) => if spec_forbidden_forward_headers().contains(h@) {
                    Some(
                        Err(
                            (
                                BareErrorCode::FORBIDDEN_BARE_HEADER,
                                "bare.headers.x-bare-forward-headers"@,
                                "A forbidden header was passed: '"@ + h@ + "'."@,
                            ),
                        ),
                    )
                } else {
                    match spec_header_name(h@) {
                        Some(n) => Some(Ok(names.push(n))),
                        None => None,
                    }
                },
                _ => Some(Ok(names)),
            },
            other => other,
        }
    }
}

/// `x-bare-forward-headers`: the defaults of the version, then the names the
/// header lists (a JSON array in version 1, a comma separated list after).
/// In version 1 the header is required; without it, version 2 forwards its
/// defaults and version 3 nothing. `v1_list` is the items of the JSON array that the header's
/// value holds, `None` where it holds none.
pub open spec fn spec_x_bare_forward_headers(headers: HeaderList, info: BareServerInfo, v1_list: Option<Seq<JsonValue>>) -> Option<Result<Seq<Seq<char>>, ErrorView>> {
    let defaults = spec_default_forward(info);
    match headers.spec_get("x-bare-forward-headers"@) {
        None => if info.version == BareServerVersion::V1 {
            Some(Err(spec_missing("request.headers.x-bare-forward-headers"@)))
        } else if info.version == BareServerVersion::V2 {
            Some(Ok(defaults))
        } else {
            Some(Ok(Seq::<Seq<char>>::empty()))
        },
        Some(v) => if info.version == BareServerVersion::V1 {
            match v1_list {
                None => Some(
                    Err(
                        (
                            BareErrorCode::INVALID_BARE_HEADER,
                            "bare.headers.x-bare-forward-headers"@,
                            "Header was not an array of Strings."@,
                        ),
                    ),
                ),
                Some(l) => spec_v1_forward(defaults, l),
            }
        } else {
            spec_named_list(defaults, spec_list_items(spec_ascii_text(v)))
        },
    }
}

proof fn lemma_v1_err(acc: Seq<Seq<char>>, l: Seq<JsonValue>, j: int)
    requires
        0 <= j <= l.len(),
        !(spec_v1_forward(acc, l.take(j)) matches Some(Ok(_))),
    ensures
        spec_v1_forward(acc, l) == spec_v1_forward(acc, l.take(j)),
    decreases l.len() - j,
{
    if j < l.len() {
        assert(l.take(j + 1).drop_last() =~= l.take(j));
        lemma_v1_err(acc, l, j + 1);
    } else {
        assert(l.take(j) =~= l);
    }
}

/// Adds the names of a version 1 list to `acc` (see [`spec_v1_forward`]).
fn push_v1_list(acc: Vec<String>, list: &Vec<JsonValue>) -> (r: Option<Result<Vec<String>, BareError>>)
    ensures
        spec_v1_forward(names_view(acc@), list@) == opt_names_result_view(r),
{
    let ghost init = names_view(acc@);
    let forbidden = forbidden_forward_headers();
    let mut names = acc;
    let mut i: usize = 0;
    while i < list.len()
        invariant
            i <= list@.len(),
            init == names_view(acc@),
            views(forbidden@) == spec_forbidden_forward_headers(),
            spec_v1_forward(init, list@.take(i as int)) == Some(Ok::<Seq<Seq<char>>, ErrorView>(names_view(names@))),
        decreases list@.len() - i,
    {
        proof {
            assert(list@.take(i + 1).drop_last() =~= list@.take(i as int));
            assert(list@.take(i + 1).last() == list@[i as int]);
        }
        match &list[i] {
            JsonValue::Str(header) => {
                let h = chars_of(header.as_str());
                if one_of(&h, &forbidden) {
                    let mut message = String::from_str("A forbidden header was passed: '");
                    push_str(&mut message, header.as_str());
                    push_str(&mut message, "'.");
                    let e = bare_error(BareErrorCode::FORBIDDEN_BARE_HEADER, "bare.headers.x-bare-forward-headers", message);
                    proof {
                        assert(spec_v1_forward(init, list@.take(i + 1)) == Some(Err::<Seq<Seq<char>>, ErrorView>(e@)));
                        lemma_v1_err(init, list@, i + 1);
                    }
                    return Some(Err(e));
                }
                match parse_header_name(header.as_str()) {
                    Some(n) => {
                        let ghost before = names@;
                        names.push(n);
                        assert(names_view(names@) =~= names_view(before).push(n@));
                    },
                    None => {
                        proof {
                            lemma_v1_err(init, list@, i + 1);
                        }
                        return None;
                    },
                }
            },
            _ => {},
        }
        i = i + 1;
    }
    assert(list@.take(list@.len() as int) =~= list@);
    Some(Ok(names))
}

/// The items of the JSON array that `x-bare-forward-headers` holds.
pub open spec fn spec_forward_items(headers: HeaderList) -> Option<Seq<JsonValue>> {
    match headers.spec_get("x-bare-forward-headers"@) {
        Some(v) => json_array_items(v),
        None => None,
    }
}

/// What [`get_x_bare_forward_headers`] gives.
pub open spec fn spec_get_x_bare_forward_headers(headers: HeaderList, info: BareServerInfo) -> Option<Result<Seq<Seq<char>>, ErrorView>> {
    spec_x_bare_forward_headers(headers, info, spec_forward_items(headers))
}

/// Gets the headers of the client's request that are forwarded to the
/// remote; where the header is absent, version 2 gives its defaults and
/// version 3 an empty list.
/// A version 1 header is parsed as a JSON array and read by
/// [`x_bare_forward_headers_from_json`].
pub fn get_x_bare_forward_headers(headers: &HeaderList, bare_info: BareServerInfo) -> (r: Result<Vec<String>, BareError>)
    requires
        spec_text_header(*headers, "x-bare-forward-headers"@),
        spec_get_x_bare_forward_headers(*headers, bare_info) is Some,
    ensures
        spec_get_x_bare_forward_headers(*headers, bare_info) == Some(names_result_view(r)),
{
    match get_x_bare_forward_headers_checked(headers, bare_info) {
        Some(r) => r,
        None => unreached(),
    }
}

/// The forward list read without panicking, given the version 1 array:
/// `None` where the header is not text or names something that is not a
/// header name.
pub open spec fn spec_read_forward(headers: HeaderList, info: BareServerInfo, v1_list: Option<Seq<JsonValue>>) -> Option<Result<Seq<Seq<char>>, ErrorView>> {
    if !spec_text_header(headers, "x-bare-forward-headers"@) {
        None
    } else {
        spec_x_bare_forward_headers(headers, info, v1_list)
    }
}

/// [`get_x_bare_forward_headers`] for any request: `None` exactly where the
/// original panics.
pub fn get_x_bare_forward_headers_checked(headers: &HeaderList, bare_info: BareServerInfo) -> (r: Option<Result<Vec<String>, BareError>>)
    ensures
        opt_names_result_view(r) == spec_read_forward(*headers, bare_info, spec_forward_items(*headers)),
{
    if !text_header(headers, "x-bare-forward-headers") {
        return None;
    }
    let v1_list = match (bare_info.version, headers.get("x-bare-forward-headers")) {
        (BareServerVersion::V1, Some(v)) => parse_json_array(v),
        _ => None,
    };
    x_bare_forward_headers_from_json(headers, bare_info, &v1_list)
}

/// The headers of the client's request that are forwarded to the remote,
/// given `v1_list`: in version 1, the items of the JSON array that the
/// header holds (`None` where it holds none); unused in later versions.
pub fn x_bare_forward_headers_from_json(
    headers: &HeaderList,
    bare_info: BareServerInfo,
    v1_list: &Option<Vec<JsonValue>>,
) -> (r: Option<Result<Vec<String>, BareError>>)
    ensures
        opt_names_result_view(r) == spec_read_forward(*headers, bare_info, opt_items_view(*v1_list)),
{
    if !text_header(headers, "x-bare-forward-headers") {
        return None;
    }
    let mut forward_headers: Vec<String> = Vec::new();
    match bare_info.version {
        BareServerVersion::V1 => {},
        BareServerVersion::V2 => {
            extend_words(&mut forward_headers, &default_forward_headers());
            if bare_info.cache {
                extend_words(&mut forward_headers, &default_cache_forward_headers());
            }
        },
        BareServerVersion::V3 => {
            let all = default_forward_headers();
            let first_two = vec![all[0], all[1]];
            assert(views(first_two@) =~= views(all@).take(2));
            extend_words(&mut forward_headers, &first_two);
            if bare_info.cache {
                extend_words(&mut forward_headers, &default_cache_forward_headers());
            }
        },
    }
    assert(names_view(forward_headers@) =~= spec_default_forward(bare_info));
    match headers.get("x-bare-forward-headers") {
        None => match bare_info.version {
            BareServerVersion::V1 => Some(Err(bare_error(
                BareErrorCode::MISSING_BARE_HEADER,
                "request.headers.x-bare-forward-headers",
                String::from_str("Header was not specified."),
            ))),
            BareServerVersion::V2 => Some(Ok(forward_headers)),
            BareServerVersion::V3 => {
                let none: Vec<String> = Vec::new();
                assert(names_view(none@) =~= Seq::<Seq<char>>::empty());
                Some(Ok(none))
            },
        },
        Some(v) => match bare_info.version {
            BareServerVersion::V1 => match v1_list {
                None => Some(Err(bare_error(
                    BareErrorCode::INVALID_BARE_HEADER,
                    "bare.headers.x-bare-forward-headers",
                    String::from_str("Header was not an array of Strings."),
                ))),
                Some(l) => push_v1_list(forward_headers, l),
            },
            _ => {
                let text = value_text(v);
                let items = list_items_of(&text);
                push_named_list(forward_headers, &items)
            },
        },
    }
}

/// The non-empty pieces of a comma separated list, untrimmed.
pub open spec fn spec_nonempty_pieces(pieces: Seq<Seq<char>>) -> Seq<Seq<char>>
    decreases pieces.len(),
{
    if pieces.len() == 0 {
        Seq::<Seq<char>>::empty()
    } else if pieces.last().len() == 0 {
        spec_nonempty_pieces(pieces.drop_last())
    } else {
        spec_nonempty_pieces(pieces.drop_last()).push(pieces.last())
    }
}

/// Status codes read from the pieces, after `acc`.
pub open spec fn spec_statuses(acc: Seq<u16>, pieces: Seq<Seq<char>>) -> Result<Seq<u16>, ErrorView>
    decreases pieces.len(),
{
    if pieces.len() == 0 {
        Ok(acc)
    } else {
        match spec_statuses(acc, pieces.drop_last()) {
            Ok(codes) => match spec_parse_u16(spec_trim(pieces.last())) {
                Some(c) => Ok(codes.push(c)),
                None => Err(
                    (
                        BareErrorCode::INVALID_BARE_HEADER,
                        "request.headers.x-bare-pass-status"@,
                        "Array contained non-number value '"@ + pieces.last() + "."@,
                    ),
                ),
            },
            Err(e) => Err(e),
        }
    }
}

/// `x-bare-pass-status`: 304 when caching, then the status codes the header
/// lists.
pub open spec fn spec_x_bare_pass_statuses(headers: HeaderList, cache: bool) -> Result<Seq<u16>, ErrorView> {
    let init = if cache {
        seq![304u16]
    } else {
        Seq::<u16>::empty()
    };
    match headers.spec_get("x-bare-pass-status"@) {
        None => Ok(init),
        Some(v) => spec_statuses(init, spec_nonempty_pieces(spec_split(spec_trim(spec_ascii_text(v)), ','))),
    }
}

proof fn lemma_statuses_err(acc: Seq<u16>, p: Seq<Seq<char>>, j: int)
    requires
        0 <= j <= p.len(),
        spec_statuses(acc, p.take(j)) is Err,
    ensures
        spec_statuses(acc, p) == spec_statuses(acc, p.take(j)),
    decreases p.len() - j,
{
    if j < p.len() {
        assert(p.take(j + 1).drop_last() =~= p.take(j));
        lemma_statuses_err(acc, p, j + 1);
    } else {
        assert(p.take(j) =~= p);
    }
}

/// The status codes of the remote's response that are passed back as they
/// are.
pub fn get_x_bare_pass_statuses(headermap: &HeaderList, cache: bool) -> (r: Result<Vec<u16>, BareError>)
    requires
        spec_text_header(*headermap, "x-bare-pass-status"@),
    ensures
        spec_x_bare_pass_statuses(*headermap, cache) == (match r {
            Ok(v) => Ok(v@),
            Err(e) => Err(e@),
        }),
{
    let mut status_codes: Vec<u16> = Vec::new();
    if cache {
        status_codes.push(CACHE_NOT_MODIFIED);
    }
    let ghost init = status_codes@;
    assert(init =~= (if cache { seq![304u16] } else { Seq::<u16>::empty() }));
    match headermap.get("x-bare-pass-status") {
        None => Ok(status_codes),
        Some(v) => {
            let text = value_text(v);
            let trimmed = trim_chars(&text);
            let split = split_chars(&trimmed, ',');
            let ghost all_pieces = spec_split(trimmed@, ',');
            // the non-empty pieces
            let mut pieces: Vec<Vec<char>> = Vec::new();
            let mut k: usize = 0;
            while k < split.len()
                invariant
                    k <= split@.len(),
                    split@.len() == all_pieces.len(),
                    forall|j: int| 0 <= j < split@.len() ==> #[trigger] split@[j]@ == all_pieces[j],
                    lists_view(pieces@) =~= spec_nonempty_pieces(all_pieces.take(k as int)),
                decreases split@.len() - k,
            {
                assert(all_pieces.take(k + 1).drop_last() =~= all_pieces.take(k as int));
                if split[k].len() > 0 {
                    let ghost before = pieces@;
                    let piece = clone_chars(&split[k]);
                    pieces.push(piece);
                    assert(lists_view(pieces@) =~= lists_view(before).push(all_pieces[k as int]));
                }
                k = k + 1;
            }
            assert(all_pieces.take(split@.len() as int) =~= all_pieces);
            let ghost ps = lists_view(pieces@);
            let mut i: usize = 0;
            while i < pieces.len()
                invariant
                    i <= pieces@.len(),
                    ps == lists_view(pieces@),
                    ps == spec_nonempty_pieces(spec_split(spec_trim(spec_ascii_text(v@)), ',')),
                    init =~= (if cache { seq![304u16] } else { Seq::<u16>::empty() }),
                    headermap.spec_get("x-bare-pass-status"@) == Some(v@),
                    spec_statuses(init, ps.take(i as int)) == Ok::<Seq<u16>, ErrorView>(status_codes@),
                decreases pieces@.len() - i,
            {
                assert(ps.take(i + 1).drop_last() =~= ps.take(i as int));
                assert(ps.take(i + 1).last() == pieces@[i as int]@);
                let code = trim_chars(&pieces[i]);
                match parse_u16(&code) {
                    Some(c) => {
                        status_codes.push(c);
                    },
                    None => {
                        let mut message = String::from_str("Array contained non-number value '");
                        let raw = string_from_chars(&pieces[i]);
                        push_str(&mut message, raw.as_str());
                        push_str(&mut message, ".");
                        let e = bare_error(BareErrorCode::INVALID_BARE_HEADER, "request.headers.x-bare-pass-status", message);
                        proof {
                            assert(spec_statuses(init, ps.take(i + 1)) == Err::<Seq<u16>, ErrorView>(e@));
                            lemma_statuses_err(init, ps, i + 1);
                        }
                        return Err(e);
                    },
                }
                i = i + 1;
            }
            assert(ps.take(pieces@.len() as int) =~= ps);
            Ok(status_codes)
        },
    }
}

/// A copy of a character vector.
fn clone_chars(v: &Vec<char>) -> (r: Vec<char>)
    ensures
        r@ == v@,
{
    let mut r: Vec<char> = Vec::new();
    let mut i: usize = 0;
    while i < v.len()
        invariant
            i <= v.len(),
            r@ =~= v@.take(i as int),
        decreases v.len() - i,
    {
        r.push(v[i]);
        i = i + 1;
    }
    r
}

} // verus!

verus! {

/// The forwarded headers of the client's request, in the order of `names`.
pub open spec fn spec_forward_headers_map(headers: HeaderSeq, names: Seq<Seq<char>>) -> HeaderSeq
    decreases names.len(),
{
    if names.len() == 0 {
        Seq::<(Seq<char>, Seq<u8>)>::empty()
    } else {
        let acc = spec_forward_headers_map(headers, names.drop_last());
        match spec_header_get(headers, names.last()) {
            Some(v) => spec_header_insert(acc, names.last(), v),
            None => acc,
        }
    }
}

/// The headers of the client's request named in `forward_headers`.
pub fn get_x_bare_forward_headers_map(headers: &HeaderList, forward_headers: &Vec<String>) -> (r: HeaderList)
    ensures
        r@ == spec_forward_headers_map(headers@, names_view(forward_headers@)),
{
    let mut forward_headers_map = HeaderList::new();
    let ghost names = names_view(forward_headers@);
    let mut i: usize = 0;
    while i < forward_headers.len()
        invariant
            i <= forward_headers@.len(),
            names == names_view(forward_headers@),
            forward_headers_map@ == spec_forward_headers_map(headers@, names.take(i as int)),
        decreases forward_headers@.len() - i,
    {
        assert(names.take(i + 1).drop_last() =~= names.take(i as int));
        assert(names.take(i + 1).last() == forward_headers@[i as int]@);
        let header = &forward_headers[i];
        match headers.get(header.as_str()) {
            Some(value) => {
                forward_headers_map.insert(header.clone(), clone_bytes(value));
            },
            None => {},
        }
        i = i + 1;
    }
    assert(names.take(forward_headers@.len() as int) =~= names);
    forward_headers_map
}

} // verus!

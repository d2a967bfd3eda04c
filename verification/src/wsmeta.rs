//! The metadata of a Bare WebSocket: reading it from the JSON a client sends
//! (version 1 in the protocol header, version 3 in its first message).
use vstd::prelude::*;
use vstd::utf8::encode_utf8;
use crate::getxb::names_view;
use crate::headers::{
    is_header_value_ok, parse_header_name, spec_header_append, spec_header_name,
    spec_header_value_ok, str_bytes, HeaderList, HeaderSeq,
};
use crate::json::{json_value_of, parse_json_text, JsonValue};
use crate::auth::{spec_split_once, split_once_char};
use crate::ws::{decode_protocol, spec_decode_protocol};
use crate::parse::WsMetaView;
use crate::structs::{BareRemote, BareServerVersion, WsMeta};
use crate::text::{
    chars_of, pop_char, push_str, spec_drop_last_char, spec_trim, str_eq, string_from_chars, trim_chars,
};
use crate::err::{bare_error, BareError, BareErrorCode, ErrorView};
use crate::ip::{ip_is_not_global, spec_ip_is_global, IpAddress};
use crate::json::{json_string_array, json_string_map, spec_is_json_object_of, spec_json_joined, spec_pairs_map};
use crate::req::{header_text_pairs, spec_header_text_pairs};
use crate::splitjoin::{spec_split_x_bare_headers, try_split_x_bare_headers_str};
use crate::text::decimal_string;
use crate::headers::spec_visible_ascii;
use crate::structs::{parse_uri, spec_default_port, uri_parse, UriParts, UriView};
use vstd::string::StringExecFns;

verus! {

/// The value of the first member with this name.
pub open spec fn spec_member(ms: Seq<(String, JsonValue)>, key: Seq<char>) -> Option<JsonValue>
    decreases ms.len(),
{
    if ms.len() == 0 {
        None
    } else if ms[0].0@ == key {
        Some(ms[0].1)
    } else {
        spec_member(ms.drop_first(), key)
    }
}

/// `value[key]` / `value.get(key)`: the member of an object, `None` for a
/// missing member or a value that is not an object.
pub open spec fn spec_field(v: JsonValue, key: Seq<char>) -> Option<JsonValue> {
    match v {
        JsonValue::Object(ms) => spec_member(ms@, key),
        _ => None,
    }
}

/// The value of the first member with this name.
pub fn member<'a>(ms: &'a Vec<(String, JsonValue)>, key: &str) -> (r: Option<&'a JsonValue>)
    ensures
        match r {
            Some(v) => spec_member(ms@, key@) == Some(*v),
            None => spec_member(ms@, key@) is None,
        },
{
    let mut i: usize = 0;
    assert(ms@.skip(0) =~= ms@);
    while i < ms.len()
        invariant
            i <= ms@.len(),
            spec_member(ms@, key@) == spec_member(ms@.skip(i as int), key@),
        decreases ms@.len() - i,
    {
        assert(ms@.skip(i as int).drop_first() =~= ms@.skip(i + 1));
        if str_eq(ms[i].0.as_str(), key) {
            return Some(&ms[i].1);
        }
        i = i + 1;
    }
    None
}

/// `value.get(key)`.
pub fn field<'a>(v: &'a JsonValue, key: &str) -> (r: Option<&'a JsonValue>)
    ensures
        match r {
            Some(x) => spec_field(*v, key@) == Some(*x),
            None => spec_field(*v, key@) is None,
        },
{
    match v {
        JsonValue::Object(ms) => member(ms, key),
        _ => None,
    }
}

/// The headers that a JSON object of strings gives when collected into a
/// `HeaderMap` (names lower-cased, a repeated name appended); `None` where a
/// name is not a header name, a value not a string or not a header value.
pub open spec fn spec_collect_headers(ms: Seq<(String, JsonValue)>) -> Option<HeaderSeq>
    decreases ms.len(),
{
    if ms.len() == 0 {
        Some(Seq::<(Seq<char>, Seq<u8>)>::empty())
    } else {
        match spec_collect_headers(ms.drop_last()) {
            None => None,
            Some(h) => match ms.last().1 {
                JsonValue::Str(s) => match spec_header_name(ms.last().0@) {
                    Some(n) => if spec_header_value_ok(encode_utf8(s@)) {
                        Some(spec_header_append(h, n, encode_utf8(s@)))
                    } else {
                        None
                    },
                    None => None,
                },
                _ => None,
            },
        }
    }
}

/// The header names of a JSON array of strings, lower-cased; `None` where an
/// item is not a string or not a header name.
pub open spec fn spec_header_names(items: Seq<JsonValue>) -> Option<Seq<Seq<char>>>
    decreases items.len(),
{
    if items.len() == 0 {
        Some(Seq::<Seq<char>>::empty())
    } else {
        match spec_header_names(items.drop_last()) {
            None => None,
            Some(ns) => match items.last() {
                JsonValue::Str(s) => match spec_header_name(s@) {
                    Some(n) => Some(ns.push(n)),
                    None => None,
                },
                _ => None,
            },
        }
    }
}

/// Collects a JSON object of strings into headers (see [`spec_collect_headers`]).
pub fn collect_headers(ms: &Vec<(String, JsonValue)>) -> (r: Option<HeaderList>)
    ensures
        match r {
            Some(h) => spec_collect_headers(ms@) == Some(h@),
            None => spec_collect_headers(ms@) is None,
        },
{
    let mut h = HeaderList::new();
    let mut i: usize = 0;
    while i < ms.len()
        invariant
            i <= ms@.len(),
            spec_collect_headers(ms@.take(i as int)) == Some(h@),
        decreases ms@.len() - i,
    {
        proof {
            assert(ms@.take(i + 1).drop_last() =~= ms@.take(i as int));
            assert(ms@.take(i + 1).last() == ms@[i as int]);
            lemma_collect_none_stays(ms@, i + 1);
        }
        match &ms[i].1 {
            JsonValue::Str(s) => {
                let name = match parse_header_name(ms[i].0.as_str()) {
                    Some(n) => n,
                    None => return None,
                };
                let bytes = str_bytes(s.as_str());
                if !is_header_value_ok(&bytes) {
                    return None;
                }
                h.append(name, bytes);
            },
            _ => return None,
        }
        i = i + 1;
    }
    assert(ms@.take(ms@.len() as int) =~= ms@);
    Some(h)
}

/// Once a prefix fails to collect, every longer prefix fails too.
proof fn lemma_collect_none_stays(ms: Seq<(String, JsonValue)>, n: int)
    requires
        0 <= n <= ms.len(),
    ensures
        forall|k: int| n <= k <= ms.len() && spec_collect_headers(ms.take(n)) is None ==> spec_collect_headers(
            #[trigger] ms.take(k),
        ) is None,
    decreases ms.len() - n,
{
    if n < ms.len() {
        lemma_collect_none_stays(ms, n + 1);
        assert(ms.take(n + 1).drop_last() =~= ms.take(n));
    }
}

/// The header names of a JSON array of strings (see [`spec_header_names`]).
pub fn header_names(items: &Vec<JsonValue>) -> (r: Option<Vec<String>>)
    ensures
        match r {
            Some(ns) => spec_header_names(items@) == Some(names_view(ns@)),
            None => spec_header_names(items@) is None,
        },
{
    let mut ns: Vec<String> = Vec::new();
    let mut i: usize = 0;
    while i < items.len()
        invariant
            i <= items@.len(),
            spec_header_names(items@.take(i as int)) == Some(names_view(ns@)),
        decreases items@.len() - i,
    {
        proof {
            assert(items@.take(i + 1).drop_last() =~= items@.take(i as int));
            assert(items@.take(i + 1).last() == items@[i as int]);
            lemma_names_none_stays(items@, i + 1);
        }
        match &items[i] {
            JsonValue::Str(s) => {
                match parse_header_name(s.as_str()) {
                    Some(n) => {
                        ns.push(n);
                        assert(names_view(ns@) =~= names_view(ns@.drop_last()).push(ns@.last()@));
                    },
                    None => return None,
                }
            },
            _ => return None,
        }
        i = i + 1;
    }
    assert(items@.take(items@.len() as int) =~= items@);
    Some(ns)
}

proof fn lemma_names_none_stays(items: Seq<JsonValue>, n: int)
    requires
        0 <= n <= items.len(),
    ensures
        forall|k: int| n <= k <= items.len() && spec_header_names(items.take(n)) is None ==> spec_header_names(
            #[trigger] items.take(k),
        ) is None,
    decreases items.len() - n,
{
    if n < items.len() {
        lemma_names_none_stays(items, n + 1);
        assert(items.take(n + 1).drop_last() =~= items.take(n));
    }
}

/// What a version 1 WebSocket's JSON gives: its remote (`protocol` without
/// its colon, `host`, `port` cut to 16 bits, `path`), its headers, its
/// forward list and its `id`; `None` where a part is missing or of the wrong
/// kind, where the input cannot be read.
pub open spec fn spec_v1_parse_ws(json: JsonValue) -> Option<(WsMetaView, Option<Seq<char>>)> {
    match (spec_field(json, "remote"@), spec_field(json, "headers"@), spec_field(json, "forward_headers"@)) {
        (Some(JsonValue::Object(remote)), Some(JsonValue::Object(hs)), Some(JsonValue::Array(fwd))) => {
            match (spec_collect_headers(hs@), spec_header_names(fwd@)) {
                (Some(headers), Some(names)) => match (
                    spec_member(remote@, "protocol"@),
                    spec_member(remote@, "host"@),
                    spec_member(remote@, "path"@),
                    spec_member(remote@, "port"@),
                ) {
                    (
                        Some(JsonValue::Str(protocol)),
                        Some(JsonValue::Str(host)),
                        Some(JsonValue::Str(path)),
                        Some(JsonValue::Number(Some(port))),
                    ) => {
                        let view = (
                            spec_drop_last_char(protocol@),
                            host@,
                            (port % 65536) as u16,
                            path@,
                            headers,
                            names,
                        );
                        match spec_field(json, "id"@) {
                            None => Some((view, None)),
                            Some(JsonValue::Str(id)) => Some((view, Some(id@))),
                            _ => None,
                        }
                    },
                    _ => None,
                },
                _ => None,
            }
        },
        _ => None,
    }
}

pub open spec fn opt_string_view(o: Option<String>) -> Option<Seq<char>> {
    match o {
        Some(s) => Some(s@),
        None => None,
    }
}

/// Reads a version 1 WebSocket's metadata from the JSON in its protocol
/// header; `None` where a part is missing or of the wrong kind.
pub fn parse_ws(json: &JsonValue) -> (r: Option<WsMeta>)
    ensures
        match r {
            Some(m) => {
                &&& spec_v1_parse_ws(*json) == Some((m.view_parts(), opt_string_view(m.id)))
                &&& m.version == BareServerVersion::V1
                &&& m.wresponse is None
            },
            None => spec_v1_parse_ws(*json) is None,
        },
{
    let remote = match field(json, "remote") {
        Some(JsonValue::Object(r)) => r,
        _ => return None,
    };
    let hs = match field(json, "headers") {
        Some(JsonValue::Object(h)) => h,
        _ => return None,
    };
    let fwd = match field(json, "forward_headers") {
        Some(JsonValue::Array(f)) => f,
        _ => return None,
    };
    let wheaders = match collect_headers(hs) {
        Some(h) => h,
        None => return None,
    };
    let wforward_headers = match header_names(fwd) {
        Some(n) => n,
        None => return None,
    };
    let protocol = match member(remote, "protocol") {
        Some(JsonValue::Str(s)) => s,
        _ => return None,
    };
    let host = match member(remote, "host") {
        Some(JsonValue::Str(s)) => s,
        _ => return None,
    };
    let path = match member(remote, "path") {
        Some(JsonValue::Str(s)) => s,
        _ => return None,
    };
    let port: u64 = match member(remote, "port") {
        Some(JsonValue::Number(Some(n))) => *n,
        _ => return None,
    };
    let id = match field(json, "id") {
        None => None,
        Some(JsonValue::Str(s)) => Some(s.clone()),
        _ => return None,
    };
    let scheme = pop_char(protocol.as_str());
    let port16: u16 = (port % 65536) as u16;
    Some(WsMeta {
        version: BareServerVersion::V1,
        wremote: BareRemote { scheme, host: host.clone(), port: port16, pathquery: path.clone() },
        wheaders,
        wforward_headers,
        wresponse: None,
        id,
    })
}

/// The strings of a JSON array of strings; `None` where an item is not a string.
pub open spec fn spec_string_items(items: Seq<JsonValue>) -> Option<Seq<Seq<char>>>
    decreases items.len(),
{
    if items.len() == 0 {
        Some(Seq::<Seq<char>>::empty())
    } else {
        match (spec_string_items(items.drop_last()), items.last()) {
            (Some(ss), JsonValue::Str(s)) => Some(ss.push(s@)),
            _ => None,
        }
    }
}

/// The subprotocols a version 3 client asks for, as the text of the
/// `Sec-WebSocket-Protocol` header: the JSON array of them without its
/// brackets, or no header for an empty list. `None` where `protocols` is
/// missing or not an array of strings, where the input cannot be read.
pub open spec fn spec_v3_protocols(json: JsonValue) -> Option<Option<Seq<char>>> {
    match spec_field(json, "protocols"@) {
        Some(JsonValue::Array(items)) => match spec_string_items(items@) {
            Some(ss) => if ss.len() == 0 {
                Some(None)
            } else {
                Some(Some(spec_json_joined(ss)))
            },
            None => None,
        },
        _ => None,
    }
}

/// The `Sec-WebSocket-Protocol` text that a version 3 connect message asks
/// for (see [`spec_v3_protocols`]).
#[verifier::loop_isolation(false)]
pub fn v3_protocols(json: &JsonValue) -> (r: Option<Option<String>>)
    ensures
        match r {
            Some(p) => spec_v3_protocols(*json) == Some(opt_string_view(p)),
            None => spec_v3_protocols(*json) is None,
        },
{
    let items = match field(json, "protocols") {
        Some(JsonValue::Array(a)) => a,
        _ => return None,
    };
    let mut ss: Vec<String> = Vec::new();
    let mut i: usize = 0;
    while i < items.len()
        invariant
            i <= items@.len(),
            spec_string_items(items@.take(i as int)) == Some(names_view(ss@)),
        decreases items@.len() - i,
    {
        proof {
            assert(items@.take(i + 1).drop_last() =~= items@.take(i as int));
            assert(items@.take(i + 1).last() == items@[i as int]);
            lemma_strings_none_stays(items@, i + 1);
        }
        match &items[i] {
            JsonValue::Str(s) => {
                ss.push(s.clone());
                assert(names_view(ss@) =~= names_view(ss@.drop_last()).push(ss@.last()@));
            },
            _ => {
                assert(items@.take(items@.len() as int) =~= items@);
                return None;
            },
        }
        i = i + 1;
    }
    assert(items@.take(items@.len() as int) =~= items@);
    if ss.len() == 0 {
        return Some(None);
    }
    let text = json_string_array(&ss);
    assert(names_view(ss@) =~= ss@.map_values(|x: String| x@));
    Some(Some(strip_brackets(text.as_str())))
}

proof fn lemma_strings_none_stays(items: Seq<JsonValue>, n: int)
    requires
        0 <= n <= items.len(),
    ensures
        forall|k: int| n <= k <= items.len() && spec_string_items(items.take(n)) is None ==> spec_string_items(
            #[trigger] items.take(k),
        ) is None,
    decreases items.len() - n,
{
    if n < items.len() {
        lemma_strings_none_stays(items, n + 1);
        assert(items.take(n + 1).drop_last() =~= items.take(n));
    }
}

/// A text without its first and last characters (`[` and `]` of an array).
fn strip_brackets(t: &str) -> (r: String)
    requires
        t@.len() >= 2,
    ensures
        r@ == t@.subrange(1, t@.len() - 1),
{
    let v = crate::text::chars_of(t);
    let n = v.len();
    let mut r = String::new();
    let mut i: usize = 1;
    while i < n - 1
        invariant
            n == v@.len(),
            n >= 2,
            v@ == t@,
            1 <= i <= n - 1,
            r@ == v@.subrange(1, i as int),
        decreases n - 1 - i,
    {
        crate::text::push_char(&mut r, v[i]);
        assert(v@.subrange(1, i + 1) =~= v@.subrange(1, i as int).push(v@[i as int]));
        i = i + 1;
    }
    r
}

/// What a version 3 connect message gives: `None` where the input cannot be read
/// (a part missing or of the wrong kind, a `type` other than `connect`, a
/// URL without host or scheme, or without path where its port is needed);
/// else the error of a URL that does not parse or has no port to infer, or
/// the metadata.
pub open spec fn spec_v3_parse_ws(json: JsonValue) -> Option<Result<WsMetaView, ErrorView>> {
    match (
        spec_field(json, "type"@),
        spec_field(json, "remote"@),
        spec_field(json, "headers"@),
        spec_field(json, "forwardHeaders"@),
    ) {
        (
            Some(JsonValue::Str(t)),
            Some(JsonValue::Str(remote)),
            Some(JsonValue::Object(hs)),
            Some(JsonValue::Array(fwd)),
        ) => if t@ != "connect"@ {
            None
        } else {
            match (spec_collect_headers(hs@), spec_header_names(fwd@)) {
                (Some(headers), Some(names)) => match uri_parse(remote@) {
                    Err(e) => Some(
                        Err(
                            (
                                BareErrorCode::INVALID_BARE_HEADER,
                                "request.header.x-bare-url"@,
                                "There was an Error while parsing the URL: "@ + e,
                            ),
                        ),
                    ),
                    Ok(u) => spec_v3_remote(u, headers, names),
                },
                _ => None,
            }
        },
        _ => None,
    }
}

/// The remote of a version 3 WebSocket's parsed URL, WebSocket schemes allowed.
pub open spec fn spec_v3_remote(u: UriView, headers: HeaderSeq, names: Seq<Seq<char>>) -> Option<Result<WsMetaView, ErrorView>> {
    match (u.0, u.1) {
        (Some(scheme), Some(host)) => {
            let default = spec_default_port(scheme, true);
            if u.2 is None && default is None {
                Some(
                    Err(
                        (
                            BareErrorCode::INVALID_BARE_HEADER,
                            "request.header.x-bare-url"@,
                            "The port for "@ + u.4 + " could not be found or inferred by its scheme"@,
                        ),
                    ),
                )
            } else {
                match u.3 {
                    Some(pq) => {
                        let port = match u.2 {
                            Some(p) => p,
                            None => default->Some_0,
                        };
                        Some(Ok((scheme, host, port, pq, headers, names)))
                    },
                    None => None,
                }
            }
        },
        _ => None,
    }
}

/// Reads a version 3 WebSocket's metadata from its connect message (see
/// [`spec_v3_parse_ws`]).
pub fn v3_parse_ws(json: &JsonValue) -> (r: Option<Result<WsMeta, BareError>>)
    ensures
        match r {
            Some(Ok(m)) => spec_v3_parse_ws(*json) == Some(Ok::<WsMetaView, ErrorView>(m.view_parts()))
                && m.version == BareServerVersion::V3 && m.wresponse is None && m.id is None,
            Some(Err(e)) => spec_v3_parse_ws(*json) == Some(Err::<WsMetaView, ErrorView>(e@)),
            None => spec_v3_parse_ws(*json) is None,
        },
{
    let t = match field(json, "type") {
        Some(JsonValue::Str(s)) => s,
        _ => return None,
    };
    let remote = match field(json, "remote") {
        Some(JsonValue::Str(s)) => s,
        _ => return None,
    };
    let hs = match field(json, "headers") {
        Some(JsonValue::Object(h)) => h,
        _ => return None,
    };
    let fwd = match field(json, "forwardHeaders") {
        Some(JsonValue::Array(f)) => f,
        _ => return None,
    };
    if !str_eq(t.as_str(), "connect") {
        return None;
    }
    let wheaders = match collect_headers(hs) {
        Some(h) => h,
        None => return None,
    };
    let wforward_headers = match header_names(fwd) {
        Some(n) => n,
        None => return None,
    };
    let url = match parse_uri(remote.as_str()) {
        Ok(u) => u,
        Err(e) => {
            let mut message = String::from_str("There was an Error while parsing the URL: ");
            push_str(&mut message, e.as_str());
            return Some(Err(bare_error(BareErrorCode::INVALID_BARE_HEADER, "request.header.x-bare-url", message)));
        },
    };
    match (&url.scheme, &url.host) {
        (Some(scheme), Some(_)) => {
            let ok = url.path_and_query.is_some() || (url.port.is_none() && crate::structs::default_port(scheme.as_str(), true).is_none());
            if !ok {
                return None;
            }
        },
        _ => return None,
    }
    let wremote = match BareRemote::try_from_url(&url, true) {
        Ok(r) => r,
        Err(e) => return Some(Err(e)),
    };
    Some(Ok(WsMeta {
        version: BareServerVersion::V3,
        wremote,
        wheaders,
        wforward_headers,
        wresponse: None,
        id: None,
    }))
}

/// The handlers that look a WebSocket's metadata up by its id.
#[derive(Clone, Copy, Debug, PartialEq, Eq, Structural)]
pub enum MetaUse {
    /// A version 1 WebSocket that names an id: its metadata is stored.
    V1Socket,
    /// The version 1 request for a stored WebSocket's metadata.
    V1Meta,
    /// A version 2 WebSocket, whose protocol is its id.
    V2Socket,
    /// The version 2 request for a stored WebSocket's metadata.
    V2Meta,
}

pub open spec fn spec_id_error(code: BareErrorCode, message: Seq<char>) -> Result<(), ErrorView> {
    Err((code, "request.headers.x-bare-id"@, message))
}

pub open spec fn spec_version_name(v: BareServerVersion) -> Seq<char> {
    match v {
        BareServerVersion::V1 => "v1"@,
        BareServerVersion::V2 => "v2"@,
        BareServerVersion::V3 => "v3"@,
    }
}

/// Whether a stored entry may serve the handler. `entry` is what the store
/// holds under the id: nothing, an entry not filled yet, or metadata of a
/// version, with or without the remote's response.
pub open spec fn spec_check_meta(
    id: Seq<char>,
    entry: Option<Option<(BareServerVersion, bool)>>,
    kind: MetaUse,
) -> Result<(), ErrorView> {
    let want = match kind {
        MetaUse::V1Socket | MetaUse::V1Meta => BareServerVersion::V1,
        _ => BareServerVersion::V2,
    };
    match entry {
        None => spec_id_error(
            BareErrorCode::INVALID_HEADER,
            match kind {
                MetaUse::V1Socket => "ID '"@ + id + "' was invalid: wasn't found in cache"@,
                MetaUse::V2Socket => "ID '"@ + id + "' wasn't found in the cache"@,
                _ => "ID '"@ + id + "' cannot be found in cache"@,
            },
        ),
        Some(None) => match kind {
            MetaUse::V1Socket => Ok(()),
            MetaUse::V1Meta => spec_id_error(
                BareErrorCode::INVALID_BARE_HEADER,
                "Metadata for ID '"@ + id + "' is not ready."@,
            ),
            _ => spec_id_error(
                BareErrorCode::INVALID_BARE_HEADER,
                "The ID '"@ + id
                    + "' was found in a cache, but it maps to 'None'. This ID likely belongs to a V1 request"@,
            ),
        },
        Some(Some((version, has_response))) => if version != want {
            spec_id_error(
                BareErrorCode::INVALID_BARE_HEADER,
                "The ID '"@ + id + "' maps to a "@ + spec_version_name(version) + " request, not a "@
                    + spec_version_name(want) + " request."@,
            )
        } else if !has_response && (kind == MetaUse::V1Meta || kind == MetaUse::V2Meta) {
            spec_id_error(
                BareErrorCode::INVALID_BARE_HEADER,
                "Response metadata for ID '"@ + id + "' is not ready."@,
            )
        } else {
            Ok(())
        },
    }
}

fn version_name(v: BareServerVersion) -> (r: &'static str)
    ensures
        r@ == spec_version_name(v),
{
    match v {
        BareServerVersion::V1 => "v1",
        BareServerVersion::V2 => "v2",
        BareServerVersion::V3 => "v3",
    }
}

fn id_error(message: String) -> (e: BareError)
    ensures
        e@ == (BareErrorCode::INVALID_BARE_HEADER, "request.headers.x-bare-id"@, message@),
{
    bare_error(BareErrorCode::INVALID_BARE_HEADER, "request.headers.x-bare-id", message)
}

/// The error, if any, with which a handler refuses the entry stored under
/// an id (see [`spec_check_meta`]).
pub fn check_meta(
    id: &str,
    entry: Option<Option<(BareServerVersion, bool)>>,
    kind: MetaUse,
) -> (r: Result<(), BareError>)
    ensures
        match r {
            Ok(()) => spec_check_meta(id@, entry, kind) == Ok::<(), ErrorView>(()),
            Err(e) => spec_check_meta(id@, entry, kind) == Err::<(), ErrorView>(e@),
        },
{
    let want = match kind {
        MetaUse::V1Socket | MetaUse::V1Meta => BareServerVersion::V1,
        _ => BareServerVersion::V2,
    };
    match entry {
        None => {
            let mut message = String::from_str("ID '");
            push_str(&mut message, id);
            match kind {
                MetaUse::V1Socket => push_str(&mut message, "' was invalid: wasn't found in cache"),
                MetaUse::V2Socket => push_str(&mut message, "' wasn't found in the cache"),
                _ => push_str(&mut message, "' cannot be found in cache"),
            }
            Err(bare_error(BareErrorCode::INVALID_HEADER, "request.headers.x-bare-id", message))
        },
        Some(None) => match kind {
            MetaUse::V1Socket => Ok(()),
            MetaUse::V1Meta => {
                let mut message = String::from_str("Metadata for ID '");
                push_str(&mut message, id);
                push_str(&mut message, "' is not ready.");
                Err(id_error(message))
            },
            _ => {
                let mut message = String::from_str("The ID '");
                push_str(&mut message, id);
                push_str(
                    &mut message,
                    "' was found in a cache, but it maps to 'None'. This ID likely belongs to a V1 request",
                );
                Err(id_error(message))
            },
        },
        Some(Some((version, has_response))) => {
            if version != want {
                let mut message = String::from_str("The ID '");
                push_str(&mut message, id);
                push_str(&mut message, "' maps to a ");
                push_str(&mut message, version_name(version));
                push_str(&mut message, " request, not a ");
                push_str(&mut message, version_name(want));
                push_str(&mut message, " request.");
                Err(id_error(message))
            } else if !has_response && (kind == MetaUse::V1Meta || kind == MetaUse::V2Meta) {
                let mut message = String::from_str("Response metadata for ID '");
                push_str(&mut message, id);
                push_str(&mut message, "' is not ready.");
                Err(id_error(message))
            } else {
                Ok(())
            }
        },
    }
}

/// The position of the first address that is not globally reachable.
pub fn first_non_global(ips: &Vec<(IpAddress, String)>) -> (r: Option<usize>)
    ensures
        match r {
            Some(i) => i < ips@.len() && !spec_ip_is_global(ips@[i as int].0) && forall|j: int|
                0 <= j < i ==> spec_ip_is_global(#[trigger] ips@[j].0),
            None => forall|j: int| 0 <= j < ips@.len() ==> spec_ip_is_global(#[trigger] ips@[j].0),
        },
{
    let mut i: usize = 0;
    while i < ips.len()
        invariant
            i <= ips@.len(),
            forall|j: int| 0 <= j < i ==> spec_ip_is_global(#[trigger] ips@[j].0),
        decreases ips@.len() - i,
    {
        if ip_is_not_global(&ips[i].0) {
            return Some(i);
        }
        i = i + 1;
    }
    None
}

/// Whether a WebSocket may go to the addresses its host resolved to (each
/// given with its text): the first that is not globally reachable refuses
/// it, with an error that names the URI and that address.
pub fn ws_check_addresses(uri: &str, ips: &Vec<(IpAddress, String)>) -> (r: Result<(), BareError>)
    ensures
        match r {
            Ok(()) => forall|j: int| 0 <= j < ips@.len() ==> spec_ip_is_global(#[trigger] ips@[j].0),
            Err(e) => exists|i: int|
                0 <= i < ips@.len() && !spec_ip_is_global(ips@[i].0) && (forall|j: int|
                    0 <= j < i ==> spec_ip_is_global(#[trigger] ips@[j].0)) && e@ == (
                    BareErrorCode::INVALID_BARE_HEADER,
                    "request.host"@,
                    "The IP of "@ + uri@ + " is "@ + ips@[i].1@ + ", which is not a global address"@,
                ),
        },
{
    match first_non_global(ips) {
        None => Ok(()),
        Some(i) => {
            let mut message = String::from_str("The IP of ");
            push_str(&mut message, uri);
            push_str(&mut message, " is ");
            push_str(&mut message, ips[i].1.as_str());
            push_str(&mut message, ", which is not a global address");
            let e = bare_error(BareErrorCode::INVALID_BARE_HEADER, "request.host", message);
            assert(!spec_ip_is_global(ips@[i as int].0) && e@ == (
                BareErrorCode::INVALID_BARE_HEADER,
                "request.host"@,
                "The IP of "@ + uri@ + " is "@ + ips@[i as int].1@ + ", which is not a global address"@,
            ));
            Err(e)
        },
    }
}

/// The close reason with which a version 3 WebSocket is refused where an
/// address of its host is not globally reachable: the first such address
/// named; `None` where all are global.
pub fn v3_address_close_reason(ips: &Vec<(IpAddress, String)>) -> (r: Option<String>)
    ensures
        match r {
            None => forall|j: int| 0 <= j < ips@.len() ==> spec_ip_is_global(#[trigger] ips@[j].0),
            Some(t) => exists|i: int|
                0 <= i < ips@.len() && !spec_ip_is_global(ips@[i].0) && (forall|j: int|
                    0 <= j < i ==> spec_ip_is_global(#[trigger] ips@[j].0)) && t@
                    == "the IP of the URI's host is "@ + ips@[i].1@ + ", which is not a global address"@,
        },
{
    match first_non_global(ips) {
        None => None,
        Some(i) => {
            let mut t = String::from_str("the IP of the URI's host is ");
            push_str(&mut t, ips[i].1.as_str());
            push_str(&mut t, ", which is not a global address");
            assert(!spec_ip_is_global(ips@[i as int].0));
            Some(t)
        },
    }
}

/// The members of the object that a version 2 metadata response describes
/// the remote's response with: its status, its status text, and its
/// headers as JSON text.
pub open spec fn spec_v2_meta_members(status: u16, status_text: Seq<char>, xb: Seq<char>) -> Seq<(Seq<char>, Seq<char>)> {
    seq![
        ("x-bare-status"@, crate::text::spec_decimal(status as nat)),
        ("x-bare-status-text"@, status_text),
        ("x-bare-headers"@, xb),
    ]
}

/// The headers of a version 2 metadata response for the JSON text `text` of
/// the remote's response: cut into `x-bare-headers-<n>` pieces when too long,
/// else whole under `x-bare-headers`.
pub open spec fn spec_v2_meta_headers(text: Seq<char>) -> HeaderSeq {
    match spec_split_x_bare_headers(encode_utf8(text)) {
        Some(split) => split,
        None => seq![("x-bare-headers"@, encode_utf8(text))],
    }
}

/// The headers of a version 2 metadata response: the remote's status,
/// status text and headers (values visible ASCII, as `to_str` requires),
/// gathered into a JSON object whose member order a map's hasher decides.
/// `None` where that text would not be a valid header value.
pub fn v2_ws_meta_headers(status: u16, status_text: &str, remote_headers: &HeaderList) -> (r: Option<HeaderList>)
    requires
        forall|i: int| 0 <= i < remote_headers@.len() ==> spec_visible_ascii(#[trigger] remote_headers@[i].1),
    ensures
        exists|xb: Seq<char>, text: Seq<char>|
            {
                &&& spec_is_json_object_of(xb, spec_pairs_map(spec_header_text_pairs(remote_headers@)))
                &&& spec_is_json_object_of(text, spec_pairs_map(spec_v2_meta_members(status, status_text@, xb)))
                &&& match r {
                    Some(h) => spec_header_value_ok(encode_utf8(text)) && h@ == spec_v2_meta_headers(text),
                    None => !spec_header_value_ok(encode_utf8(text)),
                }
            },
{
    let pairs = header_text_pairs(remote_headers);
    let xb = json_string_map(&pairs);
    let mut outer: Vec<(String, String)> = Vec::new();
    outer.push((String::from_str("x-bare-status"), decimal_string(status as u64)));
    outer.push((String::from_str("x-bare-status-text"), String::from_str(status_text)));
    outer.push((String::from_str("x-bare-headers"), xb));
    assert(crate::json::spec_pairs_view(outer@) =~= spec_v2_meta_members(status, status_text@, xb@));
    let text = json_string_map(&outer);
    let bytes = str_bytes(text.as_str());
    if !is_header_value_ok(&bytes) {
        return None;
    }
    match try_split_x_bare_headers_str(text.as_str()) {
        Some(split) => Some(split),
        None => {
            let mut h = HeaderList::new();
            h.insert(String::from_str("x-bare-headers"), bytes);
            assert(h@ =~= seq![("x-bare-headers"@, encode_utf8(text@))]);
            Some(h)
        },
    }
}

/// Why a WebSocket's URI gives no socket to connect to.
#[derive(Clone, Copy, Debug, PartialEq, Eq, Structural)]
pub enum WsTargetError {
    NoHost,
    NoPort,
}

/// The host and port a WebSocket's parsed URI leads to: its host, and its
/// port, else 443 for `wss` and 80 for `ws`.
pub open spec fn spec_ws_target(u: UriView) -> Result<(Seq<char>, u16), WsTargetError> {
    match u.1 {
        None => Err(WsTargetError::NoHost),
        Some(host) => match u.2 {
            Some(p) => Ok((host, p)),
            None => if u.0 == Some("wss"@) {
                Ok((host, 443u16))
            } else if u.0 == Some("ws"@) {
                Ok((host, 80u16))
            } else {
                Err(WsTargetError::NoPort)
            },
        },
    }
}

/// The host and port of a WebSocket's URL (see [`spec_ws_target`]); `None`
/// where the text is not a URI.
pub fn ws_target(url: &str) -> (r: Option<(Result<(String, u16), WsTargetError>, String)>)
    ensures
        match uri_parse(url@) {
            Ok(u) => r matches Some((t, text)) && text@ == u.4 && match t {
                Ok((h, p)) => spec_ws_target(u) == Ok::<(Seq<char>, u16), WsTargetError>((h@, p)),
                Err(e) => spec_ws_target(u) == Err::<(Seq<char>, u16), WsTargetError>(e),
            },
            Err(_) => r is None,
        },
{
    let u: UriParts = match parse_uri(url) {
        Ok(u) => u,
        Err(_) => return None,
    };
    let t = match &u.host {
        None => Err(WsTargetError::NoHost),
        Some(host) => match u.port {
            Some(p) => Ok((host.clone(), p)),
            None => match &u.scheme {
                Some(s) => if str_eq(s.as_str(), "wss") {
                    Ok((host.clone(), 443u16))
                } else if str_eq(s.as_str(), "ws") {
                    Ok((host.clone(), 80u16))
                } else {
                    Err(WsTargetError::NoPort)
                },
                None => Err(WsTargetError::NoPort),
            },
        },
    };
    Some((t, u.text))
}

/// The error with which a version 1 or 2 WebSocket is refused where its URI
/// (written `uri`) gives no host or no port.
pub fn ws_target_error(e: WsTargetError, uri: &str) -> (r: BareError)
    ensures
        r@ == match e {
            WsTargetError::NoHost => (
                BareErrorCode::CONNECTION_REFUSED,
                "request.host"@,
                "Host was not found in '"@ + uri@ + "'"@,
            ),
            WsTargetError::NoPort => (
                BareErrorCode::CONNECTION_REFUSED,
                "request.port"@,
                "The port of '"@ + uri@ + "' could not be deduced"@,
            ),
        },
{
    match e {
        WsTargetError::NoHost => {
            let mut m = String::from_str("Host was not found in '");
            push_str(&mut m, uri);
            push_str(&mut m, "'");
            bare_error(BareErrorCode::CONNECTION_REFUSED, "request.host", m)
        },
        WsTargetError::NoPort => {
            let mut m = String::from_str("The port of '");
            push_str(&mut m, uri);
            push_str(&mut m, "' could not be deduced");
            bare_error(BareErrorCode::CONNECTION_REFUSED, "request.port", m)
        },
    }
}

/// The error with which a version 1 or 2 WebSocket is refused where its
/// host did not resolve.
pub fn ws_dns_error(uri: &str) -> (r: BareError)
    ensures
        r@ == (BareErrorCode::CONNECTION_REFUSED, "request.dns"@, "DNS failed to find the IP of '"@ + uri@ + "'"@),
{
    let mut m = String::from_str("DNS failed to find the IP of '");
    push_str(&mut m, uri);
    push_str(&mut m, "'");
    bare_error(BareErrorCode::CONNECTION_REFUSED, "request.dns", m)
}

/// The close reason with which a version 3 WebSocket is refused where its
/// URI gives no host or no port.
pub fn v3_target_close_reason(e: WsTargetError) -> (r: &'static str)
    ensures
        r@ == match e {
            WsTargetError::NoHost => "Host was not found in uri"@,
            WsTargetError::NoPort => "The port for the uri could not be deduced"@,
        },
{
    match e {
        WsTargetError::NoHost => "Host was not found in uri",
        WsTargetError::NoPort => "The port for the uri could not be deduced",
    }
}

} // verus!

verus! {

/// The JSON that a version 1 `Sec-WebSocket-Protocol` header carries: the
/// header is `bare`, a comma, then the encoded JSON text (trimmed, then
/// decoded by [`crate::ws::decode_protocol`]). `None` where the header has
/// no comma, does not start with `bare`, or does not decode to JSON text.
pub open spec fn spec_v1_socket_json(header: Seq<char>) -> Option<JsonValue> {
    match spec_split_once(header, ',') {
        Some((bare, rest)) => if bare == "bare"@ {
            match spec_decode_protocol(spec_trim(rest)) {
                Ok(text) => json_value_of(text),
                Err(_) => None,
            }
        } else {
            None
        },
        None => None,
    }
}

/// Reads the metadata of a version 1 WebSocket from its
/// `Sec-WebSocket-Protocol` header (see [`spec_v1_socket_json`] and
/// [`parse_ws`]); `None` where the header or its JSON cannot be read.
pub fn v1_socket_meta(header: &str) -> (r: Option<WsMeta>)
    ensures
        match r {
            Some(m) => {
                &&& spec_v1_socket_json(header@) matches Some(j)
                &&& spec_v1_parse_ws(j) == Some((m.view_parts(), opt_string_view(m.id)))
                &&& m.version == BareServerVersion::V1
                &&& m.wresponse is None
            },
            None => spec_v1_socket_json(header@) matches Some(j) ==> spec_v1_parse_ws(j) is None,
        },
{
    let (bare, rest) = match split_once_char(&chars_of(header), ',') {
        Some(p) => p,
        None => return None,
    };
    proof {
        reveal_strlit("bare");
    }
    if !str_eq(bare.as_str(), "bare") {
        return None;
    }
    let trimmed = string_from_chars(&trim_chars(&chars_of(rest.as_str())));
    let decoded = match decode_protocol(trimmed.as_str()) {
        Ok(d) => d,
        Err(_) => return None,
    };
    let json = match parse_json_text(decoded.as_str()) {
        Some(j) => j,
        None => return None,
    };
    parse_ws(&json)
}

/// The JSON of a version 3 connect message.
pub open spec fn spec_v3_connect_json(text: Seq<char>) -> Option<JsonValue> {
    json_value_of(text)
}

/// Reads a version 3 connect message: the subprotocol text it asks for (see
/// [`v3_protocols`]) and its metadata (see [`v3_parse_ws`]). `None` where the
/// message is not JSON, its `protocols` is not an array of strings, or a
/// part of its metadata is missing or of the wrong kind.
pub fn v3_connect_meta(text: &str) -> (r: Option<(Option<String>, Result<WsMeta, BareError>)>)
    ensures
        match r {
            Some((p, m)) => {
                &&& spec_v3_connect_json(text@) matches Some(j)
                &&& spec_v3_protocols(j) == Some(opt_string_view(p))
                &&& match m {
                    Ok(m) => spec_v3_parse_ws(j) == Some(Ok::<WsMetaView, ErrorView>(m.view_parts()))
                        && m.version == BareServerVersion::V3 && m.wresponse is None && m.id is None,
                    Err(e) => spec_v3_parse_ws(j) == Some(Err::<WsMetaView, ErrorView>(e@)),
                }
            },
            None => match spec_v3_connect_json(text@) {
                Some(j) => spec_v3_protocols(j) is None || spec_v3_parse_ws(j) is None,
                None => true,
            },
        },
{
    let json = match parse_json_text(text) {
        Some(j) => j,
        None => return None,
    };
    let protocols = match v3_protocols(&json) {
        Some(p) => p,
        None => return None,
    };
    match v3_parse_ws(&json) {
        Some(m) => Some((protocols, m)),
        None => None,
    }
}

} // verus!

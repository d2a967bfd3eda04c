//! The fixed vocabularies of the Bare protocol: valid protocols, forbidden
//! and default header names, limits.
use vstd::prelude::*;
use vstd::string::StringExecFns;
use crate::text::{chars_eq, chars_of};

verus! {

pub const CACHE_NOT_MODIFIED: u16 = 304;

pub const HEADER_BYTES_LIMIT: usize = 3072;

pub const WEBSOCKET_PROTOCOL_RESERVED_CHAR: char = '%';

pub open spec fn spec_valid_protocols() -> Seq<Seq<char>> {
    seq!["http:"@, "https:"@, "ws:"@, "wss:"@]
}

pub open spec fn spec_forbidden_send_headers() -> Seq<Seq<char>> {
    seq!["connection"@, "content-length"@, "transfer-encoding"@]
}

pub open spec fn spec_forbidden_forward_headers() -> Seq<Seq<char>> {
    seq!["connection"@, "transfer-encoding"@, "host"@, "origin"@, "referer"@]
}

pub open spec fn spec_forbidden_pass_headers() -> Seq<Seq<char>> {
    seq![
        "vary"@,
        "connection"@,
        "transfer-encoding"@,
        "access-control-allow-headers"@,
        "access-control-allow-methods"@,
        "access-control-expose-headers"@,
        "access-control-max-age"@,
        "access-control-request-headers"@,
        "access-control-request-method"@,
    ]
}

/// The headers forwarded by default; version 3 forwards only the first two,
/// having dropped the `sec-websocket-*` ones.
pub open spec fn spec_default_forward_headers() -> Seq<Seq<char>> {
    seq![
        "accept-encoding"@,
        "accept-language"@,
        "sec-websocket-extensions"@,
        "sec-websocket-key"@,
        "sec-websocket-version"@,
    ]
}

pub open spec fn spec_default_pass_headers() -> Seq<Seq<char>> {
    seq!["content-encoding"@, "content-length"@, "last-modified"@]
}

/// Forwarded in addition when the client asked for caching.
pub open spec fn spec_default_cache_forward_headers() -> Seq<Seq<char>> {
    seq!["if-modified-since"@, "if-none-match"@, "cache-control"@]
}

/// Passed back in addition when the client asked for caching.
pub open spec fn spec_default_cache_pass_headers() -> Seq<Seq<char>> {
    seq!["cache-control"@, "etag"@]
}

pub open spec fn spec_null_body_methods() -> Seq<Seq<char>> {
    seq!["GET"@, "HEAD"@]
}

pub open spec fn spec_null_body_status(status: u16) -> bool {
    status == 101 || status == 204 || status == 205 || status == 304
}

pub open spec fn views(v: Seq<&str>) -> Seq<Seq<char>> {
    v.map_values(|s: &str| s@)
}

/// Whether the text is one of the listed words.
pub fn one_of(h: &Vec<char>, list: &Vec<&str>) -> (r: bool)
    ensures
        r == views(list@).contains(h@),
{
    let mut i: usize = 0;
    while i < list.len()
        invariant
            i <= list.len(),
            forall|j: int| 0 <= j < i ==> list@[j]@ != h@,
        decreases list.len() - i,
    {
        let w = chars_of(list[i]);
        if chars_eq(&w, h) {
            assert(views(list@)[i as int] == h@);
            return true;
        }
        i = i + 1;
    }
    assert forall|j: int| 0 <= j < views(list@).len() implies views(list@)[j] != h@ by {
        assert(views(list@)[j] == list@[j]@);
    }
    false
}

/// The listed words as owned strings.
pub fn owned_words(list: &Vec<&str>) -> (r: Vec<String>)
    ensures
        r@.map_values(|s: String| s@) == views(list@),
{
    let mut r: Vec<String> = Vec::new();
    let mut i: usize = 0;
    while i < list.len()
        invariant
            i <= list.len(),
            r@.map_values(|s: String| s@) =~= views(list@).take(i as int),
        decreases list.len() - i,
    {
        let ghost before = r@;
        r.push(String::from_str(list[i]));
        assert(r@.map_values(|s: String| s@) =~= before.map_values(|s: String| s@).push(list@[i as int]@));
        assert(views(list@).take(i + 1) =~= views(list@).take(i as int).push(list@[i as int]@));
        i = i + 1;
    }
    assert(views(list@).take(list@.len() as int) =~= views(list@));
    r
}

pub fn valid_protocols() -> (r: Vec<&'static str>)
    ensures
        views(r@) == spec_valid_protocols(),
{
    let r = vec!["http:", "https:", "ws:", "wss:"];
    assert(views(r@) =~= spec_valid_protocols());
    r
}

pub fn forbidden_send_headers() -> (r: Vec<&'static str>)
    ensures
        views(r@) == spec_forbidden_send_headers(),
{
    let r = vec!["connection", "content-length", "transfer-encoding"];
    assert(views(r@) =~= spec_forbidden_send_headers());
    r
}

pub fn forbidden_forward_headers() -> (r: Vec<&'static str>)
    ensures
        views(r@) == spec_forbidden_forward_headers(),
{
    let r = vec!["connection", "transfer-encoding", "host", "origin", "referer"];
    assert(views(r@) =~= spec_forbidden_forward_headers());
    r
}

pub fn forbidden_pass_headers() -> (r: Vec<&'static str>)
    ensures
        views(r@) == spec_forbidden_pass_headers(),
{
    let r = vec![
        "vary",
        "connection",
        "transfer-encoding",
        "access-control-allow-headers",
        "access-control-allow-methods",
        "access-control-expose-headers",
        "access-control-max-age",
        "access-control-request-headers",
        "access-control-request-method",
    ];
    assert(views(r@) =~= spec_forbidden_pass_headers());
    r
}

pub fn default_forward_headers() -> (r: Vec<&'static str>)
    ensures
        views(r@) == spec_default_forward_headers(),
{
    let r = vec![
        "accept-encoding",
        "accept-language",
        "sec-websocket-extensions",
        "sec-websocket-key",
        "sec-websocket-version",
    ];
    assert(views(r@) =~= spec_default_forward_headers());
    r
}

pub fn default_pass_headers() -> (r: Vec<&'static str>)
    ensures
        views(r@) == spec_default_pass_headers(),
{
    let r = vec!["content-encoding", "content-length", "last-modified"];
    assert(views(r@) =~= spec_default_pass_headers());
    r
}

pub fn default_cache_forward_headers() -> (r: Vec<&'static str>)
    ensures
        views(r@) == spec_default_cache_forward_headers(),
{
    let r = vec!["if-modified-since", "if-none-match", "cache-control"];
    assert(views(r@) =~= spec_default_cache_forward_headers());
    r
}

pub fn default_cache_pass_headers() -> (r: Vec<&'static str>)
    ensures
        views(r@) == spec_default_cache_pass_headers(),
{
    let r = vec!["cache-control", "etag"];
    assert(views(r@) =~= spec_default_cache_pass_headers());
    r
}

pub fn null_body_methods() -> (r: Vec<&'static str>)
    ensures
        views(r@) == spec_null_body_methods(),
{
    let r = vec!["GET", "HEAD"];
    assert(views(r@) =~= spec_null_body_methods());
    r
}

/// Whether a response with this status carries no body.
pub fn is_null_body_status(status: u16) -> (r: bool)
    ensures
        r == spec_null_body_status(status),
{
    status == 101 || status == 204 || status == 205 || status == 304
}

} // verus!

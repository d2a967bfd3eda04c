//! The JSON that describes a Bare WebSocket's metadata: the body of a
//! version 1 metadata response, the extra metadata of versions 2 and 3, and
//! the version 3 `open` message.
use vstd::prelude::*;
use vstd::string::StringExecFns;
use crate::headers::{spec_visible_ascii, HeaderList};
use crate::json::{
    json_quote, json_string_array, spec_json_object, spec_json_quoted, spec_json_string_array,
    spec_lists_map, spec_pairs_map, spec_pairs_view,
};
use crate::req::{header_text_pairs, spec_header_text_pairs};
use crate::structs::{BareRemote, WsMeta, WsResponseData};
use crate::headers::{spec_ascii_text, value_text, HeaderSeq};
use crate::text::string_from_chars;
use crate::text::{decimal_string, push_char, push_str, spec_decimal};

verus! {

/// Whether `a` comes before `b` in the order of `String`: by characters,
/// a proper prefix first.
pub open spec fn spec_text_less(a: Seq<char>, b: Seq<char>) -> bool
    decreases a.len(),
{
    if a.len() == 0 {
        b.len() > 0
    } else if b.len() == 0 {
        false
    } else if a[0] != b[0] {
        (a[0] as u32) < (b[0] as u32)
    } else {
        spec_text_less(a.drop_first(), b.drop_first())
    }
}

/// Whether a text is the compact JSON object of a map's entries with its
/// names in increasing order (how `serde_json` writes a `Value` object).
pub open spec fn spec_is_sorted_json_of(text: Seq<char>, m: Map<Seq<char>, Seq<char>>) -> bool {
    exists|order: Seq<(Seq<char>, Seq<char>)>|
        {
            &&& spec_lists_map(order, m)
            &&& forall|i: int, j: int|
                0 <= i < j < order.len() ==> spec_text_less(#[trigger] order[i].0, #[trigger] order[j].0)
            &&& text == spec_json_object(order)
        }
}

/// The text of `serde_json::to_value` of the `HashMap<String, String>` that
/// the pairs collect into: converting the map to a `Value` puts its entries
/// in a `serde_json::Map`, which keeps names in increasing order, and the
/// `Value` is written compactly (members `"name":"value"` as by
/// [`json_quote`], separated by commas). Converting strings cannot fail.
#[verifier::external_body]
fn json_sorted_map(pairs: &Vec<(String, String)>) -> (r: String)
    ensures
        spec_is_sorted_json_of(r@, spec_pairs_map(spec_pairs_view(pairs@))),
{
    let map: std::collections::HashMap<String, String> = pairs.iter().cloned().collect();
    serde_json::to_value(map).unwrap().to_string()
}

/// Members whose values are JSON texts already, written one after the other.
pub open spec fn spec_raw_members(ms: Seq<(Seq<char>, Seq<char>)>) -> Seq<char>
    decreases ms.len(),
{
    if ms.len() == 0 {
        Seq::<char>::empty()
    } else if ms.len() == 1 {
        spec_json_quoted(ms[0].0) + seq![':'] + ms[0].1
    } else {
        spec_raw_members(ms.drop_last()) + seq![','] + spec_json_quoted(ms.last().0) + seq![':'] + ms.last().1
    }
}

/// A compact JSON object whose member values are JSON texts already.
pub open spec fn spec_raw_object(ms: Seq<(Seq<char>, Seq<char>)>) -> Seq<char> {
    seq!['{'] + spec_raw_members(ms) + seq!['}']
}

/// The remote as JSON: `{"host":…,"path":…,"port":…,"protocol":…}`, the
/// protocol being the scheme with a colon.
pub open spec fn spec_remote_json(host: Seq<char>, path: Seq<char>, port: u16, scheme: Seq<char>) -> Seq<char> {
    spec_raw_object(
        seq![
            ("host"@, spec_json_quoted(host)),
            ("path"@, spec_json_quoted(path)),
            ("port"@, spec_decimal(port as nat)),
            ("protocol"@, spec_json_quoted(scheme + seq![':'])),
        ],
    )
}

/// The remote's response as JSON: `{"headers":…,"status":…,"status_text":…}`.
pub open spec fn spec_response_json(headers: Seq<char>, status: u16, status_text: Seq<char>) -> Seq<char> {
    spec_raw_object(
        seq![
            ("headers"@, headers),
            ("status"@, spec_decimal(status as nat)),
            ("status_text"@, spec_json_quoted(status_text)),
        ],
    )
}

/// Appends one member `,"name":value` (without the comma for the first).
fn push_member(out: &mut String, first: bool, name: &str, value: &str)
    ensures
        final(out)@ == old(out)@ + (if first {
            Seq::<char>::empty()
        } else {
            seq![',']
        }) + spec_json_quoted(name@) + seq![':'] + value@,
{
    if !first {
        push_char(out, ',');
    }
    let q = json_quote(name);
    push_str(out, q.as_str());
    push_char(out, ':');
    push_str(out, value);
}

/// The text of headers whose values are visible ASCII, as the sorted JSON
/// object of the map they collect into.
fn headers_json(h: &HeaderList) -> (r: String)
    requires
        forall|i: int| 0 <= i < h@.len() ==> spec_visible_ascii(#[trigger] h@[i].1),
    ensures
        spec_is_sorted_json_of(r@, spec_pairs_map(spec_header_text_pairs(h@))),
{
    let pairs = header_text_pairs(h);
    json_sorted_map(&pairs)
}

/// One more member of an object whose values are JSON texts.
pub proof fn lemma_raw_members_push(ms: Seq<(Seq<char>, Seq<char>)>, m: (Seq<char>, Seq<char>))
    ensures
        spec_raw_members(ms.push(m)) == (if ms.len() == 0 {
            Seq::<char>::empty()
        } else {
            spec_raw_members(ms) + seq![',']
        }) + spec_json_quoted(m.0) + seq![':'] + m.1,
{
    assert(ms.push(m).drop_last() =~= ms);
    assert(ms.push(m).last() == m);
    if ms.len() == 0 {
        assert(ms.push(m)[0] == m);
        assert(Seq::<char>::empty() + spec_json_quoted(m.0) + seq![':'] + m.1 =~= spec_json_quoted(m.0)
            + seq![':'] + m.1);
    } else {
        assert(spec_raw_members(ms) + seq![','] + spec_json_quoted(m.0) + seq![':'] + m.1 =~= spec_raw_members(
            ms,
        ) + seq![','] + spec_json_quoted(m.0) + seq![':'] + m.1);
    }
}

/// An object under construction: `{` and the members written so far.
struct ObjectText {
    text: String,
    empty: bool,
    members: Ghost<Seq<(Seq<char>, Seq<char>)>>,
}

impl ObjectText {
    spec fn wf(&self) -> bool {
        &&& self.text@ == seq!['{'] + spec_raw_members(self.members@)
        &&& self.empty == (self.members@.len() == 0)
    }

    fn new() -> (o: Self)
        ensures
            o.wf(),
            o.members@ == Seq::<(Seq<char>, Seq<char>)>::empty(),
    {
        let mut text = String::new();
        push_char(&mut text, '{');
        let o = ObjectText { text, empty: true, members: Ghost(Seq::empty()) };
        assert(o.text@ =~= seq!['{'] + spec_raw_members(o.members@));
        o
    }

    fn add(&mut self, name: &str, value: &str)
        requires
            old(self).wf(),
        ensures
            final(self).wf(),
            final(self).members@ == old(self).members@.push((name@, value@)),
    {
        let first = self.empty;
        let ghost before = self.members@;
        push_member(&mut self.text, first, name, value);
        self.empty = false;
        self.members = Ghost(before.push((name@, value@)));
        proof {
            lemma_raw_members_push(before, (name@, value@));
            assert(self.text@ =~= seq!['{'] + spec_raw_members(self.members@));
        }
    }

    fn finish(self) -> (s: String)
        requires
            self.wf(),
        ensures
            s@ == spec_raw_object(self.members@),
    {
        let mut t = self.text;
        push_char(&mut t, '}');
        t
    }
}

/// The remote as JSON (see [`spec_remote_json`]).
pub fn remote_json(r: &BareRemote) -> (s: String)
    ensures
        s@ == spec_remote_json(r.host@, r.pathquery@, r.port, r.scheme@),
{
    let mut o = ObjectText::new();
    let host = json_quote(r.host.as_str());
    o.add("host", host.as_str());
    let path = json_quote(r.pathquery.as_str());
    o.add("path", path.as_str());
    let port = decimal_string(r.port as u64);
    o.add("port", port.as_str());
    let mut protocol = r.scheme.clone();
    push_char(&mut protocol, ':');
    let p = json_quote(protocol.as_str());
    o.add("protocol", p.as_str());
    proof {
        assert(protocol@ =~= r.scheme@ + seq![':']);
        assert(o.members@ =~= seq![
            ("host"@, spec_json_quoted(r.host@)),
            ("path"@, spec_json_quoted(r.pathquery@)),
            ("port"@, spec_decimal(r.port as nat)),
            ("protocol"@, spec_json_quoted(r.scheme@ + seq![':'])),
        ]);
    }
    o.finish()
}

/// The `(name, text)` pairs of headers, a value that is not visible ASCII
/// read as empty text.
pub open spec fn spec_header_text_or_empty(h: HeaderSeq) -> Seq<(Seq<char>, Seq<char>)> {
    h.map_values(
        |e: (Seq<char>, Seq<u8>)|
            (e.0, if spec_visible_ascii(e.1) {
                spec_ascii_text(e.1)
            } else {
                Seq::<char>::empty()
            }),
    )
}

fn header_text_or_empty(h: &HeaderList) -> (pairs: Vec<(String, String)>)
    ensures
        spec_pairs_view(pairs@) == spec_header_text_or_empty(h@),
{
    let mut pairs: Vec<(String, String)> = Vec::new();
    let mut i: usize = 0;
    while i < h.entries.len()
        invariant
            i <= h.entries.len(),
            h@.len() == h.entries.len(),
            spec_pairs_view(pairs@) == spec_header_text_or_empty(h@.take(i as int)),
        decreases h.entries.len() - i,
    {
        let name = h.entries[i].0.clone();
        let text = if crate::headers::is_header_text(&h.entries[i].1) {
            string_from_chars(&value_text(&h.entries[i].1))
        } else {
            String::new()
        };
        let ghost before = spec_pairs_view(pairs@);
        pairs.push((name, text));
        assert(spec_pairs_view(pairs@) =~= before.push(spec_header_text_or_empty(h@)[i as int]));
        assert(spec_header_text_or_empty(h@.take(i + 1)) =~= spec_header_text_or_empty(h@.take(i as int)).push(
            spec_header_text_or_empty(h@)[i as int],
        ));
        i = i + 1;
    }
    assert(h@.take(h@.len() as int) =~= h@);
    pairs
}

/// Whether every header value is visible ASCII.
pub open spec fn spec_all_text(h: HeaderSeq) -> bool {
    forall|i: int| 0 <= i < h.len() ==> spec_visible_ascii(#[trigger] h[i].1)
}

/// The remote's response as JSON, its headers as the sorted JSON object of
/// the map they collect into.
pub fn response_json(r: &WsResponseData) -> (s: String)
    requires
        spec_all_text(r.headers@),
    ensures
        exists|h: Seq<char>|
            spec_is_sorted_json_of(h, spec_pairs_map(spec_header_text_pairs(r.headers@))) && s@
                == spec_response_json(h, r.status, r.status_text@),
{
    let h = headers_json(&r.headers);
    let mut o = ObjectText::new();
    o.add("headers", h.as_str());
    let status = decimal_string(r.status as u64);
    o.add("status", status.as_str());
    let text = json_quote(r.status_text.as_str());
    o.add("status_text", text.as_str());
    assert(o.members@ =~= seq![
        ("headers"@, h@),
        ("status"@, spec_decimal(r.status as nat)),
        ("status_text"@, spec_json_quoted(r.status_text@)),
    ]);
    o.finish()
}

/// The body of a version 1 metadata response: the headers sent to the
/// remote, and with extra metadata also the forwarded headers, the remote,
/// its response and the version, members in increasing name order.
pub open spec fn spec_v1_meta_body(
    extra_meta: bool,
    h: Seq<char>,
    f: Seq<char>,
    remote: Seq<char>,
    response: Seq<char>,
) -> Seq<char> {
    if extra_meta {
        spec_raw_object(
            seq![
                ("forward_headers"@, f),
                ("headers"@, h),
                ("remote"@, remote),
                ("response"@, response),
                ("version"@, spec_json_quoted("v1"@)),
            ],
        )
    } else {
        spec_raw_object(seq![("headers"@, h)])
    }
}

/// The body of a version 1 metadata response (see [`spec_v1_meta_body`]):
/// maps written as sorted JSON objects; `forwarded` is the client's headers
/// named in the forward list.
pub fn v1_ws_meta_body(meta: &WsMeta, forwarded: &HeaderList, extra_meta: bool) -> (s: String)
    requires
        spec_all_text(meta.wheaders@),
        extra_meta ==> (meta.wresponse matches Some(r) && spec_all_text(r.headers@) && spec_all_text(
            forwarded@,
        )),
    ensures
        exists|h: Seq<char>, f: Seq<char>, response: Seq<char>|
            {
                &&& spec_is_sorted_json_of(h, spec_pairs_map(spec_header_text_pairs(meta.wheaders@)))
                &&& extra_meta ==> spec_is_sorted_json_of(
                    f,
                    spec_pairs_map(spec_header_text_pairs(forwarded@)),
                ) && (meta.wresponse matches Some(r) && exists|rh: Seq<char>|
                    spec_is_sorted_json_of(rh, spec_pairs_map(spec_header_text_pairs(r.headers@)))
                        && response == spec_response_json(rh, r.status, r.status_text@))
                &&& s@ == spec_v1_meta_body(
                    extra_meta,
                    h,
                    f,
                    spec_remote_json(
                        meta.wremote.host@,
                        meta.wremote.pathquery@,
                        meta.wremote.port,
                        meta.wremote.scheme@,
                    ),
                    response,
                )
            },
{
    let h = headers_json(&meta.wheaders);
    let mut o = ObjectText::new();
    if extra_meta {
        let f = headers_json(forwarded);
        let response = match &meta.wresponse {
            Some(r) => response_json(r),
            None => String::new(),
        };
        let remote = remote_json(&meta.wremote);
        o.add("forward_headers", f.as_str());
        o.add("headers", h.as_str());
        o.add("remote", remote.as_str());
        o.add("response", response.as_str());
        let version = json_quote("v1");
        o.add("version", version.as_str());
        let s = o.finish();
        assert(s@ == spec_v1_meta_body(
            extra_meta,
            h@,
            f@,
            spec_remote_json(meta.wremote.host@, meta.wremote.pathquery@, meta.wremote.port, meta.wremote.scheme@),
            response@,
        )) by {
            assert(o.members@ =~= seq![
                ("forward_headers"@, f@),
                ("headers"@, h@),
                ("remote"@, remote@),
                ("response"@, response@),
                ("version"@, spec_json_quoted("v1"@)),
            ]);
        }
        s
    } else {
        o.add("headers", h.as_str());
        assert(o.members@ =~= seq![("headers"@, h@)]);
        let s = o.finish();
        assert(s@ == spec_v1_meta_body(extra_meta, h@, Seq::empty(), spec_remote_json(
            meta.wremote.host@,
            meta.wremote.pathquery@,
            meta.wremote.port,
            meta.wremote.scheme@,
        ), Seq::empty()));
        s
    }
}

/// The extra metadata of versions 2 and 3: forwarded headers, headers,
/// remote, response and version, members in increasing name order.
pub open spec fn spec_extra_meta(
    f: Seq<char>,
    h: Seq<char>,
    remote: Seq<char>,
    response: Seq<char>,
    version: Seq<char>,
) -> Seq<char> {
    spec_raw_object(
        seq![
            ("forward_headers"@, f),
            ("headers"@, h),
            ("remote"@, remote),
            ("response"@, response),
            ("version"@, spec_json_quoted(version)),
        ],
    )
}

/// The extra metadata of a version 2 or 3 WebSocket (see
/// [`spec_extra_meta`]): `remote` is the remote as JSON text already,
/// `forwarded` the client's headers named in the forward list (a value that
/// is not text written empty), maps as sorted JSON objects.
pub fn extra_meta_json(version: &str, remote: &str, meta: &WsMeta, forwarded: &HeaderList) -> (s: String)
    requires
        spec_all_text(meta.wheaders@),
        meta.wresponse matches Some(r) && spec_all_text(r.headers@),
    ensures
        exists|f: Seq<char>, h: Seq<char>, response: Seq<char>|
            {
                &&& spec_is_sorted_json_of(f, spec_pairs_map(spec_header_text_or_empty(forwarded@)))
                &&& spec_is_sorted_json_of(h, spec_pairs_map(spec_header_text_pairs(meta.wheaders@)))
                &&& meta.wresponse matches Some(r) && exists|rh: Seq<char>|
                    spec_is_sorted_json_of(rh, spec_pairs_map(spec_header_text_pairs(r.headers@)))
                        && response == spec_response_json(rh, r.status, r.status_text@)
                &&& s@ == spec_extra_meta(f, h, remote@, response, version@)
            },
{
    let pairs = header_text_or_empty(forwarded);
    let f = json_sorted_map(&pairs);
    let h = headers_json(&meta.wheaders);
    let response = match &meta.wresponse {
        Some(r) => response_json(r),
        None => String::new(),
    };
    let v = json_quote(version);
    let mut o = ObjectText::new();
    o.add("forward_headers", f.as_str());
    o.add("headers", h.as_str());
    o.add("remote", remote);
    o.add("response", response.as_str());
    o.add("version", v.as_str());
    assert(o.members@ =~= seq![
        ("forward_headers"@, f@),
        ("headers"@, h@),
        ("remote"@, remote@),
        ("response"@, response@),
        ("version"@, spec_json_quoted(version@)),
    ]);
    let s = o.finish();
    assert(s@ == spec_extra_meta(f@, h@, remote@, response@, version@));
    assert(spec_is_sorted_json_of(f@, spec_pairs_map(spec_header_text_or_empty(forwarded@))));
    s
}

/// The `open` message of a version 3 WebSocket: its extra metadata where
/// there is some, the protocol the remote chose, the cookies it set, and the
/// type, members in increasing name order.
pub open spec fn spec_open_message(extra: Option<Seq<char>>, protocol: Seq<char>, cookies: Seq<Seq<char>>) -> Seq<char> {
    let rest = seq![
        ("protocol"@, spec_json_quoted(protocol)),
        ("setCookies"@, spec_json_string_array(cookies)),
        ("type"@, spec_json_quoted("open"@)),
    ];
    match extra {
        Some(e) => spec_raw_object(seq![("extraMeta"@, e)] + rest),
        None => spec_raw_object(rest),
    }
}

/// The `open` message of a version 3 WebSocket (see [`spec_open_message`]).
pub fn v3_open_message(extra: Option<String>, protocol: &str, cookies: &Vec<String>) -> (s: String)
    ensures
        s@ == spec_open_message(
            match extra {
                Some(e) => Some(e@),
                None => None,
            },
            protocol@,
            cookies@.map_values(|c: String| c@),
        ),
{
    let mut o = ObjectText::new();
    let ghost e = match &extra {
        Some(x) => Some(x@),
        None => None::<Seq<char>>,
    };
    match &extra {
        Some(x) => o.add("extraMeta", x.as_str()),
        None => {},
    }
    let p = json_quote(protocol);
    o.add("protocol", p.as_str());
    let c = json_string_array(cookies);
    o.add("setCookies", c.as_str());
    let t = json_quote("open");
    o.add("type", t.as_str());
    let ghost rest = seq![
        ("protocol"@, spec_json_quoted(protocol@)),
        ("setCookies"@, spec_json_string_array(cookies@.map_values(|c: String| c@))),
        ("type"@, spec_json_quoted("open"@)),
    ];
    proof {
        match e {
            Some(ev) => {
                assert(o.members@ =~= seq![("extraMeta"@, ev)] + rest);
            },
            None => {
                assert(o.members@ =~= rest);
            },
        }
    }
    o.finish()
}

/// A URL as a JSON string (the remote of version 3 extra metadata).
pub fn url_json(url: &str) -> (s: String)
    ensures
        s@ == spec_json_quoted(url@),
{
    json_quote(url)
}

} // verus!

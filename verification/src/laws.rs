//! Properties that relate the library's operations to one another.
use vstd::prelude::*;
use crate::headers::{
    lemma_find_bounds, lemma_find_is_first, spec_header_find, spec_header_get, spec_header_insert,
    spec_header_remove, HeaderSeq,
};
use crate::text::{spec_all_digits, spec_decimal, spec_digits_value, spec_hex_byte, spec_parse_u16};
use crate::ws::{spec_decode_protocol, spec_hex_value, spec_protocol_char};
use crate::err::{BareErrorCode, ErrorView};
use crate::headers::spec_visible_ascii;
use crate::getxb::{spec_get_x_bare_headers, spec_missing};
use crate::headers::HeaderList;
use crate::structs::BareServerVersion;
use crate::splitjoin::{
    lemma_chunks_concat, lemma_join_split, spec_join_ok,
    spec_join_x_bare_headers, spec_split_x_bare_headers,
};
use crate::wsproxy::{spec_contains_text, spec_wsproxy_admit, WsProxyServerInfo};
use crate::wisp::{
    spec_admit_stream, spec_required_extensions, WispCloseReason, WispExtension, WispPolicy,
    WispServerVersion, WispStreamType,
};
use crate::ip::{spec_ip_is_global, IpAddress, Ipv4Address, Ipv6Address};
use crate::structs::spec_default_port;
use crate::wsmeta::{spec_check_meta, MetaUse};

verus! {

/// A header read after it was set gives back the value set (`HeaderMap::get`
/// after `HeaderMap::insert`).
pub proof fn law_get_after_insert(m: HeaderSeq, k: Seq<char>, v: Seq<u8>)
    ensures
        spec_header_get(spec_header_insert(m, k, v), k) == Some(v),
{
    lemma_find_bounds(m, k);
    let r = spec_header_insert(m, k, v);
    match spec_header_find(m, k) {
        Some(i) => {
            let t = m.take(i).push((k, v));
            assert(r[i] == (k, v));
            assert forall|j: int| 0 <= j < i implies r[j].0 != k by {
                assert(r[j] == m[j]);
            }
            lemma_find_is_first(r, k, i);
        },
        None => {
            assert(r[m.len() as int] == (k, v));
            assert forall|j: int| 0 <= j < m.len() implies r[j].0 != k by {
                assert(r[j] == m[j]);
            }
            lemma_find_is_first(r, k, m.len() as int);
        },
    }
}

proof fn lemma_decimal_digits(n: nat)
    ensures
        spec_all_digits(spec_decimal(n)),
        spec_digits_value(spec_decimal(n)) == n,
        spec_decimal(n).len() > 0,
        spec_decimal(n)[0] != '+',
    decreases n,
{
    let d = spec_decimal(n);
    assert(crate::text::spec_digit_char(n % 10) as u32 == n % 10 + 48);
    if n >= 10 {
        lemma_decimal_digits(n / 10);
        assert(d.drop_last() =~= spec_decimal(n / 10));
        assert(d[0] == spec_decimal(n / 10)[0]);
        assert(d.last() == crate::text::spec_digit_char(n % 10));
        assert(forall|i: int| 0 <= i < d.len() - 1 ==> d[i] == spec_decimal(n / 10)[i]);
        assert(spec_all_digits(d));
        assert(spec_digits_value(d) == spec_digits_value(spec_decimal(n / 10)) * 10 + (n % 10));
        assert((n / 10) * 10 + n % 10 == n);
    } else {
        assert(d.drop_last() =~= Seq::<char>::empty());
        assert(d.last() == crate::text::spec_digit_char(n % 10));
        assert(spec_digits_value(d.drop_last()) == 0);
        assert(spec_digits_value(d) == n % 10);
    }
}

/// A port written in decimal reads back as the same port (`x-bare-port`
/// and the status texts are written with `to_string` and read with
/// `u16::from_str`).
pub proof fn law_port_round_trip(n: u16)
    ensures
        spec_parse_u16(spec_decimal(n as nat)) == Some(n),
{
    lemma_decimal_digits(n as nat);
}

/// A protocol text made only of the allowed characters other than `%`
/// decodes to itself.
pub proof fn law_decode_plain(s: Seq<char>)
    requires
        forall|i: int| 0 <= i < s.len() ==> spec_protocol_char(#[trigger] s[i]) && s[i] != '%',
    ensures
        spec_decode_protocol(s) == Ok::<Seq<char>, Seq<char>>(s),
    decreases s.len(),
{
    if s.len() > 0 {
        assert(spec_protocol_char(s[0]) && s[0] != '%');
        assert(forall|i: int| 0 <= i < s.drop_first().len() ==> s.drop_first()[i] == s[i + 1]);
        law_decode_plain(s.drop_first());
        assert(seq![s[0]] + s.drop_first() =~= s);
    } else {
        assert(s =~= Seq::<char>::empty());
    }
}

proof fn lemma_hex_digit(d: nat)
    requires
        d < 16,
    ensures
        crate::ws::spec_hex_value(crate::text::spec_hex_upper_digit(d)) == Some(d as u32),
{
    let c = crate::text::spec_hex_upper_digit(d);
    if d < 10 {
        assert(c as u32 == d + 48);
    } else {
        assert(c as u32 == d - 10 + 65);
    }
}

/// A byte escaped as `%` and its two upper case hexadecimal digits (the
/// digits the library writes ids with) decodes to the character with that
/// code.
pub proof fn law_decode_escape(b: u8)
    ensures
        spec_decode_protocol(seq!['%'] + spec_hex_byte(b)) == Ok::<Seq<char>, Seq<char>>(
            seq![(b as u32) as char],
        ),
{
    let s = seq!['%'] + spec_hex_byte(b);
    assert(s.len() == 3);
    assert(s[0] == '%');
    assert(s[1] == spec_hex_byte(b)[0]);
    assert(s[2] == spec_hex_byte(b)[1]);
    lemma_hex_digit((b / 16) as nat);
    lemma_hex_digit((b % 16) as nat);
    let n1 = (b / 16) as u32;
    let n2 = (b % 16) as u32;
    assert(crate::ws::spec_hex_value(s[1]) == Some(n1));
    assert(crate::ws::spec_hex_value(s[2]) == Some(n2));
    assert(s.skip(3) =~= Seq::<char>::empty());
    assert(spec_decode_protocol(s.skip(3)) == Ok::<Seq<char>, Seq<char>>(Seq::<char>::empty()));
    assert(n1 * 16 + n2 == b as u32);
    assert(seq![((n1 * 16 + n2) as u32) as char] + Seq::<char>::empty() =~= seq![(b as u32) as char]);
}

/// Where `x-bare-headers` is absent: version 1 refuses the request as
/// missing the header; versions 2 and 3 refuse it with the error of joining
/// the `x-bare-headers-<n>` pieces, or read the headers to send exactly as
/// they read the same request with the joined pieces given as
/// `x-bare-headers`.
pub proof fn law_headers_from_pieces(h: HeaderList, joined: HeaderList, version: BareServerVersion)
    requires
        h.spec_get("x-bare-headers"@) is None,
        spec_join_x_bare_headers(h@) matches Ok(t) ==> joined@ == spec_header_insert(h@, "x-bare-headers"@, t),
    ensures
        version == BareServerVersion::V1 ==> spec_get_x_bare_headers(h, version) == Some(
            Err::<HeaderSeq, ErrorView>(spec_missing("request.headers.x-bare-headers"@)),
        ),
        version != BareServerVersion::V1 ==> match spec_join_x_bare_headers(h@) {
            Err(e) => spec_get_x_bare_headers(h, version) == Some(Err::<HeaderSeq, ErrorView>(e)),
            Ok(_) => spec_get_x_bare_headers(h, version) == spec_get_x_bare_headers(joined, version),
        },
{
    if let Ok(t) = spec_join_x_bare_headers(h@) {
        law_get_after_insert(h@, "x-bare-headers"@, t);
        assert(joined.spec_get("x-bare-headers"@) == Some(t));
    }
}

/// Different error codes are written differently on the wire: the written
/// code tells which code it was.
pub proof fn law_error_code_names_distinct(a: BareErrorCode, b: BareErrorCode)
    requires
        a.spec_str() == b.spec_str(),
    ensures
        a == b,
{
    reveal_strlit("UNKNOWN");
    reveal_strlit("HOST_NOT_FOUND");
    reveal_strlit("CONNECTION_RESET");
    reveal_strlit("CONNECTION_REFUSED");
    reveal_strlit("CONNECTION_TIMEOUT");
    reveal_strlit("MISSING_BARE_HEADER");
    reveal_strlit("INVALID_BARE_HEADER");
    reveal_strlit("UNKNOWN_BARE_HEADER");
    reveal_strlit("INVALID_HEADER");
    reveal_strlit("FORBIDDEN_BARE_HEADER");
    if a != b {
        let (x, y) = (a.spec_str(), b.spec_str());
        assert(x.len() != y.len() || x[0] != y[0] || x[11] != y[11]);
    }
}

/// How a version 1 client encodes one character of its JSON: `%` and the
/// characters that may not stand unescaped become `%` and the two upper case
/// hexadecimal digits of their code; the others stay as they are.
pub open spec fn spec_encode_protocol_char(c: char) -> Seq<char> {
    if c == '%' || !spec_protocol_char(c) {
        seq!['%'] + spec_hex_byte((c as u32) as u8)
    } else {
        seq![c]
    }
}

/// A text encoded character by character (see [`spec_encode_protocol_char`]).
pub open spec fn spec_encode_protocol(s: Seq<char>) -> Seq<char>
    decreases s.len(),
{
    if s.len() == 0 {
        Seq::<char>::empty()
    } else {
        spec_encode_protocol_char(s[0]) + spec_encode_protocol(s.drop_first())
    }
}

/// Decoding gives back any text whose characters have codes up to `0xFF`
/// once it is encoded.
pub proof fn law_decode_after_encode(s: Seq<char>)
    requires
        forall|i: int| 0 <= i < s.len() ==> (#[trigger] s[i] as u32) <= 0xFF,
    ensures
        spec_decode_protocol(spec_encode_protocol(s)) == Ok::<Seq<char>, Seq<char>>(s),
    decreases s.len(),
{
    if s.len() == 0 {
        assert(s =~= Seq::<char>::empty());
    } else {
        let c = s[0];
        let rest = s.drop_first();
        assert forall|i: int| 0 <= i < rest.len() implies (#[trigger] rest[i] as u32) <= 0xFF by {
            assert(rest[i] == s[i + 1]);
        }
        law_decode_after_encode(rest);
        let er = spec_encode_protocol(rest);
        let e = spec_encode_protocol(s);
        assert(e == spec_encode_protocol_char(c) + er);
        assert(seq![c] + rest =~= s);
        if c == '%' || !spec_protocol_char(c) {
            assert((c as u32) <= 0xFF);
            let b = (c as u32) as u8;
            assert(b as u32 == c as u32);
            lemma_hex_digit((b / 16) as nat);
            lemma_hex_digit((b % 16) as nat);
            assert(e.len() == er.len() + 3);
            assert(e[0] == '%');
            assert(e[1] == spec_hex_byte(b)[0]);
            assert(e[2] == spec_hex_byte(b)[1]);
            assert(e.skip(3) =~= er);
            let n1 = (b / 16) as u32;
            let n2 = (b % 16) as u32;
            assert(spec_hex_value(e[1]) == Some(n1));
            assert(spec_hex_value(e[2]) == Some(n2));
            assert(n1 * 16 + n2 == c as u32);
            vstd::utf8::char_u32_cast(c, (n1 * 16 + n2) as u32);
            assert(((n1 * 16 + n2) as u32) as char == c);
        } else {
            assert(e[0] == c);
            assert(e.drop_first() =~= er);
        }
    }
}

/// A wsproxy connection over TCP to port 80 or 443, whose authority parsed
/// with that port, is always admitted.
pub proof fn law_web_ports_admitted(
    info: WsProxyServerInfo,
    host: Seq<char>,
    port: u16,
    text: Seq<char>,
    query: Option<Seq<char>>,
)
    requires
        port == 80 || port == 443,
        query matches Some(q) ==> !spec_contains_text(q, "udp"@),
    ensures
        spec_wsproxy_admit(info, Ok((host, Some(port), text)), query) == Ok::<
            (Seq<char>, u16, bool),
            (u16, Seq<char>, Option<Seq<char>>),
        >((host, port, false)),
{
}

/// A version 1 Wisp connection never carries a UDP stream.
pub proof fn law_wisp_v1_refuses_udp(policy: WispPolicy, port: u16)
    ensures
        spec_admit_stream(policy, WispServerVersion::V1, port, WispStreamType::Udp) == Some(
            WispCloseReason::ServerStreamBlockedAddress,
        ),
{
}

/// Joining the `x-bare-headers-<n>` pieces that splitting a long value
/// gives turns them back into the one value they were cut from; where the
/// value is text, the pieces meet what joining needs to read them.
pub proof fn law_join_after_split(b: Seq<u8>)
    requires
        spec_split_x_bare_headers(b) is Some,
    ensures
        spec_split_x_bare_headers(b) matches Some(m) && spec_join_x_bare_headers(m) == Ok::<
            Seq<u8>,
            ErrorView,
        >(b),
        spec_visible_ascii(b) ==> (spec_split_x_bare_headers(b) matches Some(m) && spec_join_ok(m)),
{
    lemma_join_split(b);
    lemma_chunks_concat(b);
}

/// With non-internet ports allowed, a wsproxy connection over TCP to any
/// port its authority names is admitted.
pub proof fn law_any_port_when_allowed(
    info: WsProxyServerInfo,
    host: Seq<char>,
    port: u16,
    text: Seq<char>,
    query: Option<Seq<char>>,
)
    requires
        info.allow_non_internet_ports,
        query matches Some(q) ==> !spec_contains_text(q, "udp"@),
    ensures
        spec_wsproxy_admit(info, Ok((host, Some(port), text)), query) == Ok::<
            (Seq<char>, u16, bool),
            (u16, Seq<char>, Option<Seq<char>>),
        >((host, port, false)),
{
}

/// Without UDP allowed, a wsproxy connection whose query asks for UDP is
/// refused, whatever its port.
pub proof fn law_udp_refused_when_not_allowed(
    info: WsProxyServerInfo,
    host: Seq<char>,
    port: u16,
    text: Seq<char>,
    q: Seq<char>,
)
    requires
        !info.allow_non_standard_udp,
        spec_contains_text(q, "udp"@),
    ensures
        spec_wsproxy_admit(info, Ok((host, Some(port), text)), Some(q)) matches Err(c) && c.1
            == "blocked connection due to port or udp"@,
{
}

/// With non-internet ports allowed, a Wisp TCP stream is not refused for its
/// port; without them, only ports 80 and 443 pass.
pub proof fn law_wisp_ports(policy: WispPolicy, version: WispServerVersion, port: u16)
    ensures
        policy.allow_non_internet_ports ==> spec_admit_stream(policy, version, port, WispStreamType::Tcp)
            is None,
        !policy.allow_non_internet_ports ==> (spec_admit_stream(policy, version, port, WispStreamType::Tcp)
            is None <==> (port == 80 || port == 443)),
{
}

/// A Wisp UDP stream passes exactly on version 2 with UDP allowed (and a
/// port the options allow).
pub proof fn law_wisp_udp(policy: WispPolicy, version: WispServerVersion, port: u16)
    requires
        policy.allow_non_internet_ports || port == 80 || port == 443,
    ensures
        spec_admit_stream(policy, version, port, WispStreamType::Udp) is None <==> (version
            == WispServerVersion::V2 && policy.v2_allow_udp),
{
}

proof fn lemma_find_concat(a: HeaderSeq, b: HeaderSeq, k: Seq<char>)
    ensures
        spec_header_find(a + b, k) == (match spec_header_find(a, k) {
            Some(i) => Some(i),
            None => match spec_header_find(b, k) {
                Some(j) => Some(j + a.len()),
                None => None,
            },
        }),
    decreases a.len(),
{
    if a.len() == 0 {
        assert(a + b =~= b);
    } else {
        lemma_find_concat(a.drop_first(), b, k);
        assert((a + b).drop_first() =~= a.drop_first() + b);
        assert((a + b)[0] == a[0]);
    }
}

/// Looking a name up in two header lists one after the other: the first
/// list answers where it holds the name, else the second.
proof fn lemma_get_concat(a: HeaderSeq, b: HeaderSeq, k: Seq<char>)
    ensures
        spec_header_get(a + b, k) == (match spec_header_get(a, k) {
            Some(x) => Some(x),
            None => spec_header_get(b, k),
        }),
{
    lemma_find_concat(a, b, k);
    lemma_find_bounds(a, k);
    lemma_find_bounds(b, k);
    match spec_header_find(a, k) {
        Some(i) => {
            assert((a + b)[i] == a[i]);
        },
        None => match spec_header_find(b, k) {
            Some(j) => {
                assert((a + b)[j + a.len()] == b[j]);
            },
            None => {},
        },
    }
}

/// Removing a name leaves the lookups of the other names as they were.
proof fn lemma_remove_get(s: HeaderSeq, k: Seq<char>, k2: Seq<char>)
    requires
        k != k2,
    ensures
        spec_header_get(spec_header_remove(s, k), k2) == spec_header_get(s, k2),
    decreases s.len(),
{
    if s.len() > 0 {
        lemma_remove_get(s.drop_last(), k, k2);
        let e = s.last();
        assert(s.drop_last() + seq![e] =~= s);
        lemma_get_concat(s.drop_last(), seq![e], k2);
        lemma_get_single(e, k2);
        let rest = spec_header_remove(s.drop_last(), k);
        if e.0 != k {
            assert(rest.push(e) =~= rest + seq![e]);
            lemma_get_concat(rest, seq![e], k2);
        }
    }
}

proof fn lemma_get_single(e: (Seq<char>, Seq<u8>), k: Seq<char>)
    ensures
        spec_header_get(seq![e], k) == (if e.0 == k {
            Some(e.1)
        } else {
            None::<Seq<u8>>
        }),
{
    let m = seq![e];
    assert(m[0] == e);
    assert(m.drop_first() =~= Seq::<(Seq<char>, Seq<u8>)>::empty());
    assert(spec_header_find(m.drop_first(), k) is None);
}

/// Setting a header leaves the values of the other headers as they were
/// (`HeaderMap::get` of another name after `HeaderMap::insert`).
pub proof fn law_insert_keeps_others(m: HeaderSeq, k: Seq<char>, v: Seq<u8>, k2: Seq<char>)
    requires
        k != k2,
    ensures
        spec_header_get(spec_header_insert(m, k, v), k2) == spec_header_get(m, k2),
{
    lemma_find_bounds(m, k);
    lemma_get_single((k, v), k2);
    match spec_header_find(m, k) {
        None => {
            assert(m.push((k, v)) =~= m + seq![(k, v)]);
            lemma_get_concat(m, seq![(k, v)], k2);
        },
        Some(i) => {
            let a = m.take(i);
            let rest = spec_header_remove(m.skip(i + 1), k);
            assert(a.push((k, v)) =~= a + seq![(k, v)]);
            lemma_get_concat(a, seq![(k, v)], k2);
            lemma_get_concat(a.push((k, v)), rest, k2);
            lemma_remove_get(m.skip(i + 1), k, k2);
            assert(m =~= a + (seq![m[i]] + m.skip(i + 1)));
            lemma_get_concat(a, seq![m[i]] + m.skip(i + 1), k2);
            lemma_get_concat(seq![m[i]], m.skip(i + 1), k2);
            lemma_get_single(m[i], k2);
        },
    }
}

/// The private IPv4 blocks 10.0.0.0/8, 172.16.0.0/12 and 192.168.0.0/16
/// (`Ipv4Addr::is_private`), like "this network" 0.0.0.0/8, loopback
/// 127.0.0.0/8, link local 169.254.0.0/16, shared 100.64.0.0/10 and the
/// reserved 240.0.0.0/4, are not globally reachable.
pub proof fn law_ipv4_local_blocks_not_global(ip: Ipv4Address)
    requires
        ({
            let a = ip.octets@[0];
            let b = ip.octets@[1];
            ||| a == 10
            ||| (a == 172 && 16 <= b && b <= 31)
            ||| (a == 192 && b == 168)
            ||| a == 0
            ||| a == 127
            ||| (a == 169 && b == 254)
            ||| (a == 100 && 64 <= b && b <= 127)
            ||| a >= 240
        }),
    ensures
        !spec_ip_is_global(IpAddress::V4(ip)),
{
}

/// An IPv4 address whose first octet lies in none of the special blocks
/// (0, 10, 100, 127, 169, 172, 192, 198, 203, 240 and above) is globally
/// reachable.
pub proof fn law_ipv4_public_first_octet_global(ip: Ipv4Address)
    requires
        ({
            let a = ip.octets@[0];
            &&& a != 0 && a != 10 && a != 100 && a != 127 && a != 169
            &&& a != 172 && a != 192 && a != 198 && a != 203
            &&& a < 240
        }),
    ensures
        spec_ip_is_global(IpAddress::V4(ip)),
{
}

/// Within 172.0.0.0/8 exactly the private block 172.16.0.0/12 is not
/// globally reachable.
pub proof fn law_ipv4_172_private_exactly(ip: Ipv4Address)
    requires
        ip.octets@[0] == 172,
    ensures
        spec_ip_is_global(IpAddress::V4(ip)) <==> !(16 <= ip.octets@[1] && ip.octets@[1] <= 31),
{
}

/// The IPv6 unspecified and loopback addresses and the unique local
/// (fc00::/7) and link local (fe80::/10) blocks are not globally reachable;
/// an address whose first segment lies between 2003 and fbff is.
pub proof fn law_ipv6_blocks(ip: Ipv6Address)
    ensures
        ({
            let s = ip.segments@;
            let head = s[0] == 0 && s[1] == 0 && s[2] == 0 && s[3] == 0 && s[4] == 0 && s[5] == 0 && s[6] == 0;
            &&& (head && (s[7] == 0 || s[7] == 1)) ==> !spec_ip_is_global(IpAddress::V6(ip))
            &&& (0xfc00 <= s[0] && s[0] <= 0xfdff) ==> !spec_ip_is_global(IpAddress::V6(ip))
            &&& (0xfe80 <= s[0] && s[0] <= 0xfebf) ==> !spec_ip_is_global(IpAddress::V6(ip))
            &&& (0x2003 <= s[0] && s[0] <= 0xfbff) ==> spec_ip_is_global(IpAddress::V6(ip))
        }),
{
}

/// A version 2 handshake requires each extension exactly when its option
/// is set: UDP when UDP is allowed, password authentication when it is
/// configured, certificate authentication when certificate keys are
/// configured, the message of the day when one is set; each at most once.
/// A version 1 connection has no handshake.
pub proof fn law_required_extensions_follow_options(policy: WispPolicy)
    ensures
        spec_required_extensions(policy, WispServerVersion::V1) is None,
        spec_required_extensions(policy, WispServerVersion::V2) matches Some(l) && {
            &&& l.contains(WispExtension::Udp) <==> policy.v2_allow_udp
            &&& l.contains(WispExtension::Password) <==> policy.v2_use_auth
            &&& l.contains(WispExtension::CertAuth) <==> policy.v2_use_cert
            &&& l.contains(WispExtension::Motd) <==> policy.v2_use_motd
            &&& l.no_duplicates()
        },
{
    let l = spec_required_extensions(policy, WispServerVersion::V2)->Some_0;
    let a = if policy.v2_allow_udp { seq![WispExtension::Udp] } else { Seq::<WispExtension>::empty() };
    let b = if policy.v2_use_auth { a.push(WispExtension::Password) } else { a };
    let c = if policy.v2_use_cert { b.push(WispExtension::CertAuth) } else { b };
    let d = if policy.v2_use_motd { c.push(WispExtension::Motd) } else { c };
    assert(l == d);
    assert(a.contains(WispExtension::Udp) <==> policy.v2_allow_udp) by {
        if policy.v2_allow_udp { assert(a[0] == WispExtension::Udp); }
    }
    assert forall|x: WispExtension| #[trigger] d.contains(x) <==> (
        (x == WispExtension::Udp && policy.v2_allow_udp)
        || (x == WispExtension::Password && policy.v2_use_auth)
        || (x == WispExtension::CertAuth && policy.v2_use_cert)
        || (x == WispExtension::Motd && policy.v2_use_motd)) by {
        lemma_push_contains(Seq::<WispExtension>::empty(), WispExtension::Udp, x);
        assert(seq![WispExtension::Udp] =~= Seq::<WispExtension>::empty().push(WispExtension::Udp));
        lemma_push_contains(a, WispExtension::Password, x);
        lemma_push_contains(b, WispExtension::CertAuth, x);
        lemma_push_contains(c, WispExtension::Motd, x);
    }
    assert(d.no_duplicates()) by {
        assert forall|i: int, j: int| 0 <= i < d.len() && 0 <= j < d.len() && i != j implies d[i] != d[j] by {
            if policy.v2_allow_udp { assert(a[0] == WispExtension::Udp); }
            if policy.v2_use_auth { assert(b[b.len() - 1] == WispExtension::Password); }
            if policy.v2_use_cert { assert(c[c.len() - 1] == WispExtension::CertAuth); }
            if policy.v2_use_motd { assert(d[d.len() - 1] == WispExtension::Motd); }
        }
    }
}

proof fn lemma_push_contains(s: Seq<WispExtension>, y: WispExtension, x: WispExtension)
    ensures
        s.push(y).contains(x) <==> (s.contains(x) || x == y),
{
    let t = s.push(y);
    assert(t[s.len() as int] == y);
    if t.contains(x) {
        let k = choose|k: int| 0 <= k < t.len() && t[k] == x;
        if k < s.len() {
            assert(s[k] == x);
        }
    }
    if s.contains(x) {
        let k = choose|k: int| 0 <= k < s.len() && s[k] == x;
        assert(t[k] == x);
    }
}

/// The default port of `http` is 80 and of `https` 443; `ws` and `wss`
/// have 80 and 443 where WebSockets are allowed and none otherwise; a scheme
/// other than these four has none.
pub proof fn law_default_ports(scheme: Seq<char>, allow_ws: bool)
    ensures
        spec_default_port("http"@, allow_ws) == Some(80u16),
        spec_default_port("https"@, allow_ws) == Some(443u16),
        spec_default_port("ws"@, allow_ws) == (if allow_ws { Some(80u16) } else { None }),
        spec_default_port("wss"@, allow_ws) == (if allow_ws { Some(443u16) } else { None }),
        (scheme != "http"@ && scheme != "https"@ && scheme != "ws"@ && scheme != "wss"@) ==> spec_default_port(
            scheme,
            allow_ws,
        ) is None,
{
    reveal_strlit("http");
    reveal_strlit("https");
    reveal_strlit("ws");
    reveal_strlit("wss");
    assert("https"@ != "http"@) by { assert("https"@.len() != "http"@.len()); }
    assert("ws"@ != "http"@) by { assert("ws"@[0] != "http"@[0]); }
    assert("wss"@ != "http"@) by { assert("wss"@[0] != "http"@[0]); }
    assert("ws"@ != "https"@) by { assert("ws"@.len() != "https"@.len()); }
    assert("wss"@ != "https"@) by { assert("wss"@[0] != "https"@[0]); }
    assert("wss"@ != "ws"@) by { assert("wss"@.len() != "ws"@.len()); }
}

/// A stored entry serves a handler exactly when it holds metadata of the
/// handler's version (version 1 for the version 1 socket and meta request,
/// version 2 for the others) and, for the two meta requests, the remote's
/// response; a version 1 socket also takes an entry not filled yet. A
/// version 2 socket does not wait for the response.
pub proof fn law_check_meta_accepts(
    id: Seq<char>,
    entry: Option<Option<(BareServerVersion, bool)>>,
    kind: MetaUse,
)
    ensures
        spec_check_meta(id, entry, kind) is Ok <==> (match entry {
            None => false,
            Some(None) => kind == MetaUse::V1Socket,
            Some(Some((version, has_response))) => {
                &&& version == (if kind == MetaUse::V1Socket || kind == MetaUse::V1Meta {
                    BareServerVersion::V1
                } else {
                    BareServerVersion::V2
                })
                &&& (kind == MetaUse::V1Meta || kind == MetaUse::V2Meta) ==> has_response
            },
        }),
{
}

/// A wsproxy connection to an authority with a port is refused exactly when
/// non-internet ports are not allowed and the port is neither 80 nor 443,
/// or UDP is not allowed and the query asks for UDP; an admitted one goes
/// to the authority's host and port, over UDP where the query asks for it.
pub proof fn law_wsproxy_refuses_exactly(
    info: WsProxyServerInfo,
    host: Seq<char>,
    port: u16,
    text: Seq<char>,
    query: Option<Seq<char>>,
)
    ensures
        ({
            let udp = match query {
                Some(q) => spec_contains_text(q, "udp"@),
                None => false,
            };
            let refused = (!info.allow_non_internet_ports && port != 80 && port != 443) || (
            !info.allow_non_standard_udp && udp);
            &&& refused ==> (spec_wsproxy_admit(info, Ok((host, Some(port), text)), query) matches Err(c)
                && c.1 == "blocked connection due to port or udp"@)
            &&& !refused ==> spec_wsproxy_admit(info, Ok((host, Some(port), text)), query) == Ok::<
                (Seq<char>, u16, bool),
                (u16, Seq<char>, Option<Seq<char>>),
            >((host, port, udp))
        }),
{
}

} // verus!

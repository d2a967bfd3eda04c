//! Whether an IP address is globally reachable (the unstable
//! `IpAddr::is_global` of std, written out on plain octets and segments).
use vstd::prelude::*;

verus! {

/// An IPv4 address by its four octets, most significant first.
#[derive(Clone, Copy, Debug, PartialEq, Eq)]
pub struct Ipv4Address {
    pub octets: [u8; 4],
}

/// An IPv6 address by its eight 16-bit segments, most significant first.
#[derive(Clone, Copy, Debug, PartialEq, Eq)]
pub struct Ipv6Address {
    pub segments: [u16; 8],
}

/// An IPv4 or an IPv6 address.
#[derive(Clone, Copy, Debug, PartialEq, Eq)]
pub enum IpAddress {
    V4(Ipv4Address),
    V6(Ipv6Address),
}

/// The IPv4 ranges that are not globally reachable, as address blocks.
pub open spec fn spec_ipv4_not_global(a: u8, b: u8, c: u8, d: u8) -> bool {
    // 0.0.0.0/8 "this network"
    ||| a == 0
    // 10.0.0.0/8, 172.16.0.0/12, 192.168.0.0/16 (private)
    ||| a == 10
    ||| (a == 172 && 16 <= b <= 31)
    ||| (a == 192 && b == 168)
    // 100.64.0.0/10 (shared address space)
    ||| (a == 100 && 64 <= b <= 127)
    // 127.0.0.0/8 (loopback)
    ||| a == 127
    // 169.254.0.0/16 (link local)
    ||| (a == 169 && b == 254)
    // 192.0.0.0/24 (protocol assignments), except 192.0.0.9 and 192.0.0.10
    ||| (a == 192 && b == 0 && c == 0 && d != 9 && d != 10)
    // 192.0.2.0/24, 198.51.100.0/24, 203.0.113.0/24 (documentation)
    ||| (a == 192 && b == 0 && c == 2)
    ||| (a == 198 && b == 51 && c == 100)
    ||| (a == 203 && b == 0 && c == 113)
    // 198.18.0.0/15 (benchmarking)
    ||| (a == 198 && 18 <= b <= 19)
    // 240.0.0.0/4 (reserved), which holds the broadcast address
    ||| a >= 240
}

pub open spec fn spec_ipv4_is_global(ip: Ipv4Address) -> bool {
    !spec_ipv4_not_global(ip.octets@[0], ip.octets@[1], ip.octets@[2], ip.octets@[3])
}

/// The IPv6 ranges that are not globally reachable, as address blocks.
pub open spec fn spec_ipv6_not_global(s: Seq<u16>) -> bool {
    // ::  (unspecified) and ::1 (loopback)
    ||| (s[0] == 0 && s[1] == 0 && s[2] == 0 && s[3] == 0 && s[4] == 0 && s[5] == 0
        && s[6] == 0 && s[7] == 0)
    ||| (s[0] == 0 && s[1] == 0 && s[2] == 0 && s[3] == 0 && s[4] == 0 && s[5] == 0
        && s[6] == 0 && s[7] == 1)
    // ::ffff:0:0/96 (IPv4-mapped)
    ||| (s[0] == 0 && s[1] == 0 && s[2] == 0 && s[3] == 0 && s[4] == 0 && s[5] == 0xffff)
    // 64:ff9b:1::/48 (local-use IPv4/IPv6 translation)
    ||| (s[0] == 0x64 && s[1] == 0xff9b && s[2] == 1)
    // 100::/64 (discard only)
    ||| (s[0] == 0x100 && s[1] == 0 && s[2] == 0 && s[3] == 0)
    // 2001::/23 (IETF protocol assignments), with its globally reachable exceptions
    ||| (s[0] == 0x2001 && s[1] < 0x200 && !spec_ipv6_ietf_exception(s))
    // 2002::/16 (6to4)
    ||| s[0] == 0x2002
    // 2001:db8::/32 (documentation)
    ||| (s[0] == 0x2001 && s[1] == 0xdb8)
    // fc00::/7 (unique local)
    ||| (0xfc00 <= s[0] <= 0xfdff)
    // fe80::/10 (unicast link local)
    ||| (0xfe80 <= s[0] <= 0xfebf)
}

/// The globally reachable blocks inside 2001::/23: 2001:1::1, 2001:1::2,
/// 2001:3::/32, 2001:4:112::/48 and 2001:20::/28.
pub open spec fn spec_ipv6_ietf_exception(s: Seq<u16>) -> bool {
    ||| (s[0] == 0x2001 && s[1] == 1 && s[2] == 0 && s[3] == 0 && s[4] == 0 && s[5] == 0
        && s[6] == 0 && s[7] == 1)
    ||| (s[0] == 0x2001 && s[1] == 1 && s[2] == 0 && s[3] == 0 && s[4] == 0 && s[5] == 0
        && s[6] == 0 && s[7] == 2)
    ||| (s[0] == 0x2001 && s[1] == 3)
    ||| (s[0] == 0x2001 && s[1] == 4 && s[2] == 0x112)
    ||| (s[0] == 0x2001 && 0x20 <= s[1] <= 0x3f)
}

pub open spec fn spec_ipv6_is_global(ip: Ipv6Address) -> bool {
    !spec_ipv6_not_global(ip.segments@)
}

pub open spec fn spec_ip_is_global(ip: IpAddress) -> bool {
    match ip {
        IpAddress::V4(v4) => spec_ipv4_is_global(v4),
        IpAddress::V6(v6) => spec_ipv6_is_global(v6),
    }
}

/// `Ipv4Addr::is_private` of std.
fn ipv4_is_private(a: u8, b: u8) -> (r: bool)
    ensures
        r == (a == 10 || (a == 172 && 16 <= b <= 31) || (a == 192 && b == 168)),
{
    a == 10 || (a == 172 && b >= 16 && b <= 31) || (a == 192 && b == 168)
}

/// `Ipv4Addr::is_documentation` of std.
fn ipv4_is_documentation(a: u8, b: u8, c: u8) -> (r: bool)
    ensures
        r == ((a == 192 && b == 0 && c == 2) || (a == 198 && b == 51 && c == 100) || (a == 203
            && b == 0 && c == 113)),
{
    (a == 192 && b == 0 && c == 2) || (a == 198 && b == 51 && c == 100) || (a == 203 && b == 0
        && c == 113)
}

/// Whether an IPv4 address is globally reachable.
pub fn ipv4_is_global(ipv4: &Ipv4Address) -> (r: bool)
    ensures
        r == spec_ipv4_is_global(*ipv4),
{
    let a = ipv4.octets[0];
    let b = ipv4.octets[1];
    let c = ipv4.octets[2];
    let d = ipv4.octets[3];
    assert((b & 0b1100_0000u8 == 0b0100_0000u8) <==> (64 <= b && b <= 127)) by (bit_vector);
    assert(((b & 0xfeu8) == 18u8) <==> (b == 18 || b == 19)) by (bit_vector);
    assert((a & 240u8 == 240u8) <==> a >= 240) by (bit_vector);
    let is_loopback = a == 127;
    let is_link_local = a == 169 && b == 254;
    let is_broadcast = a == 255 && b == 255 && c == 255 && d == 255;
    !(a == 0 || ipv4_is_private(a, b) || (a == 100 && (b & 0b1100_0000 == 0b0100_0000))
        || is_loopback || is_link_local || (a == 192 && b == 0 && c == 0 && d != 9 && d != 10)
        || ipv4_is_documentation(a, b, c) || (a == 198 && (b & 0xfe) == 18) || (a & 240 == 240
        && !is_broadcast) || is_broadcast)
}

/// Whether an IPv6 address is globally reachable.
pub fn ipv6_is_global(ipv6: &Ipv6Address) -> (r: bool)
    ensures
        r == spec_ipv6_is_global(*ipv6),
{
    let s = ipv6.segments;
    let s0 = s[0];
    let s1 = s[1];
    assert(((s0 & 0xfe00u16) == 0xfc00u16) <==> (0xfc00 <= s0 && s0 <= 0xfdff)) by (bit_vector);
    assert(((s0 & 0xffc0u16) == 0xfe80u16) <==> (0xfe80 <= s0 && s0 <= 0xfebf)) by (bit_vector);
    let head_zero = s[0] == 0 && s[1] == 0 && s[2] == 0 && s[3] == 0 && s[4] == 0;
    let is_unspecified = head_zero && s[5] == 0 && s[6] == 0 && s[7] == 0;
    let is_loopback = head_zero && s[5] == 0 && s[6] == 0 && s[7] == 1;
    let ietf_exception = (s0 == 0x2001 && s1 == 1 && s[2] == 0 && s[3] == 0 && s[4] == 0 && s[5]
        == 0 && s[6] == 0 && s[7] == 1) || (s0 == 0x2001 && s1 == 1 && s[2] == 0 && s[3] == 0
        && s[4] == 0 && s[5] == 0 && s[6] == 0 && s[7] == 2) || (s0 == 0x2001 && s1 == 3) || (s0
        == 0x2001 && s1 == 4 && s[2] == 0x112) || (s0 == 0x2001 && s1 >= 0x20 && s1 <= 0x3f);
    !(is_unspecified || is_loopback || (head_zero && s[5] == 0xffff) || (s0 == 0x64 && s1
        == 0xff9b && s[2] == 1) || (s0 == 0x100 && s1 == 0 && s[2] == 0 && s[3] == 0) || ((s0
        == 0x2001 && s1 < 0x200) && !ietf_exception) || s0 == 0x2002 || (s0 == 0x2001 && s1
        == 0xdb8) || ((s0 & 0xfe00) == 0xfc00) || ((s0 & 0xffc0) == 0xfe80))
}

/// Whether an IP address is globally reachable.
pub fn ip_is_global(ipaddr: &IpAddress) -> (r: bool)
    ensures
        r == spec_ip_is_global(*ipaddr),
{
    match ipaddr {
        IpAddress::V4(v4) => ipv4_is_global(v4),
        IpAddress::V6(v6) => ipv6_is_global(v6),
    }
}

/// Whether an IP address is not globally reachable: the negation of
/// [`ip_is_global`].
pub fn ip_is_not_global(ipaddr: &IpAddress) -> (r: bool)
    ensures
        r == !spec_ip_is_global(*ipaddr),
{
    !ip_is_global(ipaddr)
}

} // verus!

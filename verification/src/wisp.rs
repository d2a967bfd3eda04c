//! The decisions of a Wisp server: which extensions a version 2 handshake
//! requires, which streams are admitted, and how a stream is closed.
use vstd::prelude::*;
use crate::ip::{spec_ip_is_global, IpAddress};

verus! {

/// The versions of the Wisp protocol.
#[derive(Clone, Copy, Debug, PartialEq, Eq, Structural)]
pub enum WispServerVersion {
    V1,
    V2,
}

/// The kinds of stream a Wisp client may open.
#[derive(Clone, Copy, Debug, PartialEq, Eq, Structural)]
pub enum WispStreamType {
    Tcp,
    Udp,
    Other(u8),
}

/// The reasons with which the server closes a Wisp stream.
#[derive(Clone, Copy, Debug, PartialEq, Eq, Structural)]
pub enum WispCloseReason {
    ServerStreamBlockedAddress,
    ServerStreamInvalidInfo,
    ServerStreamConnectionRefused,
    Voluntary,
    Unexpected,
}

/// The protocol extensions a version 2 handshake offers and requires.
#[derive(Clone, Copy, Debug, PartialEq, Eq, Structural)]
pub enum WispExtension {
    Udp,
    Password,
    CertAuth,
    Motd,
}

/// The options of a Wisp server that its decisions read.
#[derive(Clone, Copy, Debug)]
pub struct WispPolicy {
    pub allow_non_global_ip: bool,
    pub allow_non_internet_ports: bool,
    pub v2_allow_udp: bool,
    /// Whether passwords are configured.
    pub v2_use_auth: bool,
    /// Whether certificate keys are configured.
    pub v2_use_cert: bool,
    /// Whether a message of the day is configured.
    pub v2_use_motd: bool,
}

/// The extensions a handshake requires, in the order they are offered:
/// none and no handshake at all for version 1; for version 2 UDP,
/// passwords, certificates and the message of the day, each where it is
/// configured.
pub open spec fn spec_required_extensions(policy: WispPolicy, version: WispServerVersion) -> Option<Seq<WispExtension>> {
    match version {
        WispServerVersion::V1 => None,
        WispServerVersion::V2 => {
            let a = if policy.v2_allow_udp {
                seq![WispExtension::Udp]
            } else {
                Seq::<WispExtension>::empty()
            };
            let b = if policy.v2_use_auth {
                a.push(WispExtension::Password)
            } else {
                a
            };
            let c = if policy.v2_use_cert {
                b.push(WispExtension::CertAuth)
            } else {
                b
            };
            let d = if policy.v2_use_motd {
                c.push(WispExtension::Motd)
            } else {
                c
            };
            Some(d)
        },
    }
}

/// The extensions a connection's handshake requires (see
/// [`spec_required_extensions`]).
pub fn required_extensions(policy: &WispPolicy, version: WispServerVersion) -> (r: Option<Vec<WispExtension>>)
    ensures
        match r {
            Some(v) => spec_required_extensions(*policy, version) == Some(v@),
            None => spec_required_extensions(*policy, version) is None,
        },
{
    match version {
        WispServerVersion::V1 => None,
        WispServerVersion::V2 => {
            let mut required: Vec<WispExtension> = Vec::new();
            if policy.v2_allow_udp {
                required.push(WispExtension::Udp);
            }
            if policy.v2_use_auth {
                required.push(WispExtension::Password);
            }
            if policy.v2_use_cert {
                required.push(WispExtension::CertAuth);
            }
            if policy.v2_use_motd {
                required.push(WispExtension::Motd);
            }
            proof {
                let a = if policy.v2_allow_udp {
                    seq![WispExtension::Udp]
                } else {
                    Seq::<WispExtension>::empty()
                };
                assert(a =~= if policy.v2_allow_udp {
                    Seq::<WispExtension>::empty().push(WispExtension::Udp)
                } else {
                    Seq::<WispExtension>::empty()
                });
            }
            Some(required)
        },
    }
}

/// Whether a new stream is refused before its host is looked up: a port
/// other than 80 or 443 where those are the only ones allowed, UDP where
/// the version or the options do not allow it, or a stream of another kind.
pub open spec fn spec_admit_stream(
    policy: WispPolicy,
    version: WispServerVersion,
    port: u16,
    stream_type: WispStreamType,
) -> Option<WispCloseReason> {
    if !policy.allow_non_internet_ports && !(port == 80 || port == 443) {
        Some(WispCloseReason::ServerStreamBlockedAddress)
    } else if stream_type == WispStreamType::Udp && !(version == WispServerVersion::V2
        && policy.v2_allow_udp) {
        Some(WispCloseReason::ServerStreamBlockedAddress)
    } else if stream_type is Other {
        Some(WispCloseReason::ServerStreamInvalidInfo)
    } else {
        None
    }
}

/// The reason a new stream is closed with before its host is looked up,
/// `None` where it goes on (see [`spec_admit_stream`]).
pub fn admit_stream(
    policy: &WispPolicy,
    version: WispServerVersion,
    port: u16,
    stream_type: WispStreamType,
) -> (r: Option<WispCloseReason>)
    ensures
        r == spec_admit_stream(*policy, version, port, stream_type),
{
    if !policy.allow_non_internet_ports && !(port == 80 || port == 443) {
        return Some(WispCloseReason::ServerStreamBlockedAddress);
    }
    let udp = match stream_type {
        WispStreamType::Udp => true,
        _ => false,
    };
    let v2 = match version {
        WispServerVersion::V2 => true,
        WispServerVersion::V1 => false,
    };
    if udp && !(v2 && policy.v2_allow_udp) {
        return Some(WispCloseReason::ServerStreamBlockedAddress);
    }
    match stream_type {
        WispStreamType::Other(_) => Some(WispCloseReason::ServerStreamInvalidInfo),
        _ => None,
    }
}

/// The reason a stream is closed with once its host is resolved: an address
/// that is not globally reachable, where the options forbid those, blocks it.
pub fn check_stream_addresses(policy: &WispPolicy, ips: &Vec<IpAddress>) -> (r: Option<WispCloseReason>)
    ensures
        r == (if !policy.allow_non_global_ip && exists|i: int|
            0 <= i < ips@.len() && !spec_ip_is_global(#[trigger] ips@[i]) {
            Some(WispCloseReason::ServerStreamBlockedAddress)
        } else {
            None
        }),
{
    if policy.allow_non_global_ip {
        return None;
    }
    let mut i: usize = 0;
    while i < ips.len()
        invariant
            i <= ips@.len(),
            !policy.allow_non_global_ip,
            forall|j: int| 0 <= j < i ==> spec_ip_is_global(#[trigger] ips@[j]),
        decreases ips@.len() - i,
    {
        if crate::ip::ip_is_not_global(&ips[i]) {
            assert(!spec_ip_is_global(ips@[i as int]));
            return Some(WispCloseReason::ServerStreamBlockedAddress);
        }
        i = i + 1;
    }
    None
}

/// The reason a stream whose relay ended is closed with: voluntary where
/// the relay ended without error, unexpected otherwise.
pub fn relay_close_reason(ok: bool) -> (r: WispCloseReason)
    ensures
        r == (if ok {
            WispCloseReason::Voluntary
        } else {
            WispCloseReason::Unexpected
        }),
{
    if ok {
        WispCloseReason::Voluntary
    } else {
        WispCloseReason::Unexpected
    }
}

} // verus!

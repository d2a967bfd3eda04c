//! The decisions of a wsproxy connection: which connections are admitted,
//! how a relay between the WebSocket and the remote goes on or ends, and
//! how the WebSocket is closed.
use vstd::prelude::*;
use vstd::string::StringExecFns;
use crate::ip::{spec_ip_is_global, IpAddress};
use crate::text::{chars_of, decimal_string, push_str, spec_decimal};
use crate::wsmeta::first_non_global;

verus! {

/// The close code for a failure on the server's side.
pub const CLOSE_INTERNAL_SERVER_ERROR: u16 = 1011;

/// The close code for a connection that ended normally.
pub const CLOSE_NORMAL_CLOSURE: u16 = 1000;

/// How a wsproxy WebSocket is closed: the close code and reason sent to the
/// client, and the error that ended it, if one did.
#[derive(Debug)]
pub struct WsProxyClose {
    pub code: u16,
    pub reason: String,
    pub err: Option<String>,
}

/// The options of a wsproxy server.
#[derive(Clone, Copy, Debug)]
pub struct WsProxyServerInfo {
    pub allow_non_global_ip: bool,
    pub allow_non_internet_ports: bool,
    pub allow_non_standard_udp: bool,
    pub max_message_size: usize,
}

pub type CloseView = (u16, Seq<char>, Option<Seq<char>>);

impl WsProxyClose {
    pub open spec fn view_parts(&self) -> CloseView {
        (
            self.code,
            self.reason@,
            match self.err {
                Some(e) => Some(e@),
                None => None,
            },
        )
    }
}

fn close_error(reason: &str, err: String) -> (c: WsProxyClose)
    ensures
        c.view_parts() == (CLOSE_INTERNAL_SERVER_ERROR, reason@, Some(err@)),
{
    WsProxyClose { code: CLOSE_INTERNAL_SERVER_ERROR, reason: String::from_str(reason), err: Some(err) }
}

/// Whether `t` occurs in `s`.
pub open spec fn spec_contains_text(s: Seq<char>, t: Seq<char>) -> bool {
    exists|i: int| 0 <= i && i + t.len() <= s.len() && #[trigger] s.subrange(i, i + t.len()) == t
}

/// Whether `udp` occurs in a text.
pub fn contains_udp(s: &str) -> (r: bool)
    ensures
        r == spec_contains_text(s@, "udp"@),
{
    proof {
        reveal_strlit("udp");
    }
    let v = chars_of(s);
    let n = v.len();
    if n < 3 {
        return false;
    }
    let mut i: usize = 0;
    while i < n - 2
        invariant
            v@ == s@,
            n == v@.len(),
            n >= 3,
            i <= n - 2,
            "udp"@ == seq!['u', 'd', 'p'],
            forall|j: int| 0 <= j < i ==> #[trigger] s@.subrange(j, j + 3) != "udp"@,
        decreases n - i,
    {
        if v[i] == 'u' && v[i + 1] == 'd' && v[i + 2] == 'p' {
            assert(s@.subrange(i as int, i + 3) =~= "udp"@);
            return true;
        }
        assert(s@.subrange(i as int, i + 3)[0] == v@[i as int]);
        assert(s@.subrange(i as int, i + 3)[1] == v@[i + 1]);
        assert(s@.subrange(i as int, i + 3)[2] == v@[i + 2]);
        i = i + 1;
    }
    false
}

/// The text of a `bool` as `Display` writes it.
pub open spec fn spec_bool_text(b: bool) -> Seq<char> {
    if b {
        "true"@
    } else {
        "false"@
    }
}

fn bool_text(b: bool) -> (r: &'static str)
    ensures
        r@ == spec_bool_text(b),
{
    if b {
        "true"
    } else {
        "false"
    }
}

/// What the path of a wsproxy connection parses to as an authority: its
/// host, its port if it names one, and its text; or the text of the error.
pub uninterp spec fn authority_parse(path: Seq<char>) -> Result<(Seq<char>, Option<u16>, Seq<char>), Seq<char>>;

/// An authority taken apart.
#[derive(Debug)]
pub struct AuthorityParts {
    pub host: String,
    pub port: Option<u16>,
    pub text: String,
}

pub open spec fn authority_view(r: Result<AuthorityParts, String>) -> Result<(Seq<char>, Option<u16>, Seq<char>), Seq<char>> {
    match r {
        Ok(a) => Ok((a.host@, a.port, a.text@)),
        Err(e) => Err(e@),
    }
}

/// `Authority::try_from` of the `http` crate, taken apart into `host()`,
/// `port_u16()` and its `Display` text; on refusal the `Display` text of the
/// `InvalidUri` error. Which texts it accepts (RFC 3986 as that crate reads
/// an authority) is not stated; the result is named.
#[verifier::external_body]
pub(crate) fn parse_authority(path: &str) -> (r: Result<AuthorityParts, String>)
    ensures
        authority_view(r) == authority_parse(path@),
{
    match axum::http::uri::Authority::try_from(path) {
        Ok(a) => Ok(AuthorityParts { host: a.host().to_string(), port: a.port_u16(), text: a.to_string() }),
        Err(e) => Err(e.to_string()),
    }
}

/// Whether the server's options refuse a connection to this port, or over UDP.
pub open spec fn spec_blocked(info: WsProxyServerInfo, port: u16, udp: bool) -> bool {
    (!info.allow_non_internet_ports && !(port == 80 || port == 443)) || (!info.allow_non_standard_udp && udp)
}

/// Where a wsproxy connection goes: the host and port, and whether over UDP.
pub type WsProxyTarget = (Seq<char>, u16, bool);

/// Whether a connection to the authority `path` is admitted: its
/// authority must parse and name a port, and the options must allow that
/// port and, where the query asks for it, UDP. The closing that refuses it
/// otherwise.
pub open spec fn spec_wsproxy_admit(
    info: WsProxyServerInfo,
    parsed: Result<(Seq<char>, Option<u16>, Seq<char>), Seq<char>>,
    query: Option<Seq<char>>,
) -> Result<WsProxyTarget, CloseView> {
    match parsed {
        Err(e) => Err((CLOSE_INTERNAL_SERVER_ERROR, "failed to parse authority"@, Some(e))),
        Ok((host, port, text)) => match port {
            None => Err(
                (
                    CLOSE_INTERNAL_SERVER_ERROR,
                    "failed to get port"@,
                    Some("Authority '"@ + text + "' does not contain a port number"@),
                ),
            ),
            Some(p) => {
                let udp = match query {
                    Some(q) => spec_contains_text(q, "udp"@),
                    None => false,
                };
                if spec_blocked(info, p, udp) {
                    Err(
                        (
                            CLOSE_INTERNAL_SERVER_ERROR,
                            "blocked connection due to port or udp"@,
                            Some(
                                "Error allowing connection, port or udp => Port: "@ + spec_decimal(
                                    p as nat,
                                ) + ", UDP: "@ + spec_bool_text(udp),
                            ),
                        ),
                    )
                } else {
                    Ok((host, p, udp))
                }
            },
        },
    }
}

/// Decides whether a wsproxy connection to the authority in its path is
/// admitted (see [`spec_wsproxy_admit`]); `query` is the connection's query,
/// where it has one.
pub fn wsproxy_admit(info: &WsProxyServerInfo, path: &str, query: Option<&str>) -> (r: Result<
    (String, u16, bool),
    WsProxyClose,
>)
    ensures
        match r {
            Ok((h, p, u)) => spec_wsproxy_admit(*info, authority_parse(path@), opt_text(query))
                == Ok::<WsProxyTarget, CloseView>((h@, p, u)),
            Err(c) => spec_wsproxy_admit(*info, authority_parse(path@), opt_text(query)) == Err::<
                WsProxyTarget,
                CloseView,
            >(c.view_parts()),
        },
{
    let authority = match parse_authority(path) {
        Ok(a) => a,
        Err(e) => return Err(close_error("failed to parse authority", e)),
    };
    let port = match authority.port {
        Some(p) => p,
        None => {
            let mut err = String::from_str("Authority '");
            push_str(&mut err, authority.text.as_str());
            push_str(&mut err, "' does not contain a port number");
            return Err(close_error("failed to get port", err));
        },
    };
    let udp = match query {
        Some(q) => contains_udp(q),
        None => false,
    };
    if (!info.allow_non_internet_ports && !(port == 80 || port == 443)) || (!info.allow_non_standard_udp
        && udp) {
        let mut err = String::from_str("Error allowing connection, port or udp => Port: ");
        let digits = decimal_string(port as u64);
        push_str(&mut err, digits.as_str());
        push_str(&mut err, ", UDP: ");
        push_str(&mut err, bool_text(udp));
        return Err(close_error("blocked connection due to port or udp", err));
    }
    Ok((authority.host, port, udp))
}

pub open spec fn opt_text(o: Option<&str>) -> Option<Seq<char>> {
    match o {
        Some(s) => Some(s@),
        None => None,
    }
}

/// The closing for a host whose name did not resolve, with the resolver's
/// error text.
pub fn dns_failure_close(err: String) -> (c: WsProxyClose)
    ensures
        c.view_parts() == (CLOSE_INTERNAL_SERVER_ERROR, "failed to resolve uri"@, Some(err@)),
{
    close_error("failed to resolve uri", err)
}

/// The closing for a remote that refused the TCP connection, with the error
/// text.
pub fn connect_failure_close(err: String) -> (c: WsProxyClose)
    ensures
        c.view_parts() == (CLOSE_INTERNAL_SERVER_ERROR, "failed to connect"@, Some(err@)),
{
    close_error("failed to connect", err)
}

/// The closing where no resolved address could be bound and connected over
/// UDP; `addresses` is the text of the list of addresses.
pub fn udp_failure_close(addresses: &str) -> (c: WsProxyClose)
    ensures
        c.view_parts() == (
            CLOSE_INTERNAL_SERVER_ERROR,
            "Could not connect to any of the provided sockets"@,
            Some("Could not connect to any of "@ + addresses@),
        ),
{
    let mut err = String::from_str("Could not connect to any of ");
    push_str(&mut err, addresses);
    close_error("Could not connect to any of the provided sockets", err)
}

/// Whether the addresses a host resolved to (each with its text) may be
/// used: where the options forbid it, the first address that is not
/// globally reachable refuses the connection, its text and the authority's
/// named in the error.
pub fn wsproxy_check_addresses(
    info: &WsProxyServerInfo,
    authority: &str,
    ips: &Vec<(IpAddress, String)>,
) -> (r: Option<WsProxyClose>)
    ensures
        match r {
            None => info.allow_non_global_ip || forall|j: int|
                0 <= j < ips@.len() ==> spec_ip_is_global(#[trigger] ips@[j].0),
            Some(c) => !info.allow_non_global_ip && exists|i: int|
                0 <= i < ips@.len() && !spec_ip_is_global(ips@[i].0) && (forall|j: int|
                    0 <= j < i ==> spec_ip_is_global(#[trigger] ips@[j].0)) && c.view_parts() == (
                    CLOSE_INTERNAL_SERVER_ERROR,
                    "blocked non-global ip"@,
                    Some("Non-global IP "@ + ips@[i].1@ + " found for "@ + authority@),
                ),
        },
{
    if info.allow_non_global_ip {
        return None;
    }
    match first_non_global(ips) {
        None => None,
        Some(i) => {
            let mut err = String::from_str("Non-global IP ");
            push_str(&mut err, ips[i].1.as_str());
            push_str(&mut err, " found for ");
            push_str(&mut err, authority);
            let c = close_error("blocked non-global ip", err);
            assert(!spec_ip_is_global(ips@[i as int].0));
            Some(c)
        },
    }
}

/// The address a UDP socket is bound to before it connects to a remote of
/// the given family: any IPv4 or any IPv6 address, any port.
pub fn udp_bind_address(remote_is_ipv4: bool) -> (r: &'static str)
    ensures
        r@ == (if remote_is_ipv4 {
            "0.0.0.0:0"@
        } else {
            "[::]:0"@
        }),
{
    if remote_is_ipv4 {
        "0.0.0.0:0"
    } else {
        "[::]:0"
    }
}

/// The size of the buffer a UDP datagram is read into: the largest IPv4
/// payload where the socket's local address is known to be IPv4, else the
/// largest IPv6 one.
pub fn udp_buffer_size(local_is_ipv4: Option<bool>) -> (r: usize)
    ensures
        r == (if local_is_ipv4 == Some(true) {
            65507usize
        } else {
            65527usize
        }),
{
    match local_is_ipv4 {
        Some(true) => 65507,
        _ => 65527,
    }
}

/// Whether a relay carries UDP datagrams or a TCP stream.
#[derive(Clone, Copy, Debug, PartialEq, Eq, Structural)]
pub enum RelayKind {
    Udp,
    Tcp,
}

/// What happened on a relay between a WebSocket and a remote.
#[derive(Debug)]
pub enum RelayEvent {
    /// A binary message of `len` bytes from the client, of which `sent`
    /// were written to the remote.
    ClientBinary { sent: usize, len: usize },
    /// A text, ping or pong message from the client.
    ClientOther,
    /// A close message from the client.
    ClientClose,
    /// The client's side failed, with this error text.
    ClientError(String),
    /// The client's stream ended.
    ClientEnd,
    /// `len` bytes came from the remote (none: the remote closed).
    RemoteData(usize),
    /// Reading the remote or sending to the client failed, with this error text.
    IoError(String),
}

/// What a relay does next.
#[derive(Debug)]
pub enum RelayAction {
    /// Go on waiting.
    Continue,
    /// Send the bytes read from the remote to the client as a binary message.
    SendToClient,
    /// Shut the remote's stream down, then end with `Ok(false)`, or with the
    /// error of the shutdown.
    ShutdownAndEnd,
    /// End with this result: `Ok(true)` where the remote closed, `Ok(false)`
    /// where the client did, or an error.
    End(Result<bool, String>),
}

/// The name of the remote side in error texts.
pub open spec fn spec_relay_target(kind: RelayKind) -> Seq<char> {
    match kind {
        RelayKind::Udp => "udp socket"@,
        RelayKind::Tcp => "tcp stream"@,
    }
}

/// A relay's next step as plain values.
pub enum RelayStep {
    Continue,
    SendToClient,
    ShutdownAndEnd,
    End(Result<bool, Seq<char>>),
}

impl RelayAction {
    pub open spec fn step(&self) -> RelayStep {
        match self {
            RelayAction::Continue => RelayStep::Continue,
            RelayAction::SendToClient => RelayStep::SendToClient,
            RelayAction::ShutdownAndEnd => RelayStep::ShutdownAndEnd,
            RelayAction::End(Ok(b)) => RelayStep::End(Ok(*b)),
            RelayAction::End(Err(e)) => RelayStep::End(Err(e@)),
        }
    }
}

/// One step of a relay: a short write to the remote or a failure ends it
/// with an error; a close or the end of the client's stream ends it (a TCP
/// stream is shut down first); no data from the remote ends it as closed by
/// the remote; data from the remote goes to the client; anything else is
/// ignored.
pub open spec fn spec_relay_step(kind: RelayKind, event: RelayEvent) -> RelayStep {
    match event {
        RelayEvent::ClientBinary { sent, len } => if sent != len {
            RelayStep::End(
                Err(
                    "Error sending packets to "@ + spec_relay_target(kind) + ": # Bytes Sent: "@
                        + spec_decimal(sent as nat) + ", # Expected Bytes Sent: "@ + spec_decimal(len as nat),
                ),
            )
        } else {
            RelayStep::Continue
        },
        RelayEvent::ClientOther => RelayStep::Continue,
        RelayEvent::ClientClose | RelayEvent::ClientEnd => match kind {
            RelayKind::Tcp => RelayStep::ShutdownAndEnd,
            RelayKind::Udp => RelayStep::End(Ok(false)),
        },
        RelayEvent::ClientError(e) => RelayStep::End(Err(e@)),
        RelayEvent::RemoteData(n) => if n == 0 {
            RelayStep::End(Ok(true))
        } else {
            RelayStep::SendToClient
        },
        RelayEvent::IoError(e) => RelayStep::End(Err(e@)),
    }
}

/// Decides a relay's next step on an event (see [`spec_relay_step`]).
pub fn relay_step(kind: RelayKind, event: RelayEvent) -> (a: RelayAction)
    ensures
        a.step() == spec_relay_step(kind, event),
{
    match event {
        RelayEvent::ClientBinary { sent, len } => if sent != len {
            let mut err = String::from_str("Error sending packets to ");
            match kind {
                RelayKind::Udp => push_str(&mut err, "udp socket"),
                RelayKind::Tcp => push_str(&mut err, "tcp stream"),
            }
            push_str(&mut err, ": # Bytes Sent: ");
            let a = decimal_string(sent as u64);
            push_str(&mut err, a.as_str());
            push_str(&mut err, ", # Expected Bytes Sent: ");
            let b = decimal_string(len as u64);
            push_str(&mut err, b.as_str());
            RelayAction::End(Err(err))
        } else {
            RelayAction::Continue
        },
        RelayEvent::ClientOther => RelayAction::Continue,
        RelayEvent::ClientClose | RelayEvent::ClientEnd => match kind {
            RelayKind::Tcp => RelayAction::ShutdownAndEnd,
            RelayKind::Udp => RelayAction::End(Ok(false)),
        },
        RelayEvent::ClientError(e) => RelayAction::End(Err(e)),
        RelayEvent::RemoteData(n) => if n == 0 {
            RelayAction::End(Ok(true))
        } else {
            RelayAction::SendToClient
        },
        RelayEvent::IoError(e) => RelayAction::End(Err(e)),
    }
}

/// How a relay's result closes the WebSocket: a remote that closed closes
/// it normally, a client that closed leaves it as it is, an error closes it
/// with the given reason and that error.
pub fn to_close(ret: Result<bool, String>, reason: &str) -> (r: Option<WsProxyClose>)
    ensures
        match ret {
            Ok(true) => r matches Some(c) && c.view_parts() == (
                CLOSE_NORMAL_CLOSURE,
                "Closed Successfully"@,
                None::<Seq<char>>,
            ),
            Ok(false) => r is None,
            Err(e) => r matches Some(c) && c.view_parts() == (CLOSE_INTERNAL_SERVER_ERROR, reason@, Some(e@)),
        },
{
    match ret {
        Ok(true) => Some(
            WsProxyClose { code: CLOSE_NORMAL_CLOSURE, reason: String::from_str("Closed Successfully"), err: None },
        ),
        Ok(false) => None,
        Err(e) => Some(close_error(reason, e)),
    }
}

} // verus!

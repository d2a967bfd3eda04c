//! WebSocket helpers of the Bare server: the `Sec-WebSocket-Protocol`
//! decoding of version 1 and random ids for WebSocket metadata.
use vstd::prelude::*;
use vstd::string::StringExecFns;
use crate::consts::WEBSOCKET_PROTOCOL_RESERVED_CHAR;
use crate::text::{chars_of, hex_upper, push_char, push_str, spec_hex_upper, string_from_chars};

verus! {

/// The characters allowed unescaped in an encoded protocol.
pub open spec fn spec_protocol_char(c: char) -> bool {
    ||| ('0' <= c && c <= '9')
    ||| ('A' <= c && c <= 'Z')
    ||| ('a' <= c && c <= 'z')
    ||| c == '!' || c == '#' || c == '$' || c == '%' || c == '&' || c == '\''
    ||| c == '*' || c == '+' || c == '-' || c == '.' || c == '^' || c == '_'
    ||| c == '`' || c == '|' || c == '~'
}

/// `char::to_digit(16)`.
pub open spec fn spec_hex_value(c: char) -> Option<u32> {
    if '0' <= c && c <= '9' {
        Some((c as u32 - '0' as u32) as u32)
    } else if 'a' <= c && c <= 'f' {
        Some((c as u32 - 'a' as u32 + 10) as u32)
    } else if 'A' <= c && c <= 'F' {
        Some((c as u32 - 'A' as u32 + 10) as u32)
    } else {
        None
    }
}

/// The decoding of an encoded protocol: `%` followed by two hexadecimal
/// digits stands for the character with that code, an allowed character for
/// itself; anything else is an error.
pub open spec fn spec_decode_protocol(s: Seq<char>) -> Result<Seq<char>, Seq<char>>
    decreases s.len(),
{
    if s.len() == 0 {
        Ok(Seq::<char>::empty())
    } else if s[0] == '%' {
        if s.len() < 3 {
            Err("Not enough chars after %"@)
        } else {
            match (spec_hex_value(s[1]), spec_hex_value(s[2])) {
                (Some(n1), Some(n2)) => match spec_decode_protocol(s.skip(3)) {
                    Ok(rest) => Ok(seq![((n1 * 16 + n2) as u32) as char] + rest),
                    Err(e) => Err(e),
                },
                _ => Err("Couldn't convert char to hex: "@ + seq![s[1]] + " or "@ + seq![s[2]]),
            }
        }
    } else if spec_protocol_char(s[0]) {
        match spec_decode_protocol(s.drop_first()) {
            Ok(rest) => Ok(seq![s[0]] + rest),
            Err(e) => Err(e),
        }
    } else {
        Err("Invalid Char Found: "@ + seq![s[0]])
    }
}

fn hex_value(c: char) -> (r: Option<u32>)
    ensures
        r == spec_hex_value(c),
{
    if '0' <= c && c <= '9' {
        Some(c as u32 - '0' as u32)
    } else if 'a' <= c && c <= 'f' {
        Some(c as u32 - 'a' as u32 + 10)
    } else if 'A' <= c && c <= 'F' {
        Some(c as u32 - 'A' as u32 + 10)
    } else {
        None
    }
}

fn is_protocol_char(c: char) -> (r: bool)
    ensures
        r == spec_protocol_char(c),
{
    ('0' <= c && c <= '9') || ('A' <= c && c <= 'Z') || ('a' <= c && c <= 'z') || c == '!' || c
        == '#' || c == '$' || c == '%' || c == '&' || c == '\'' || c == '*' || c == '+' || c == '-'
        || c == '.' || c == '^' || c == '_' || c == '`' || c == '|' || c == '~'
}

/// The decoded text prefixed to a decoding result.
pub open spec fn spec_prefixed(out: Seq<char>, r: Result<Seq<char>, Seq<char>>) -> Result<Seq<char>, Seq<char>> {
    match r {
        Ok(rest) => Ok(out + rest),
        Err(e) => Err(e),
    }
}

/// Decodes a `Sec-WebSocket-Protocol` value of Bare version 1.
pub fn decode_protocol(protocol: &str) -> (r: Result<String, String>)
    ensures
        spec_decode_protocol(protocol@) == (match r {
            Ok(s) => Ok(s@),
            Err(e) => Err(e@),
        }),
{
    let s = chars_of(protocol);
    let mut result: Vec<char> = Vec::new();
    let mut i: usize = 0;
    assert(s@.skip(0) =~= s@);
    assert(spec_prefixed(result@, spec_decode_protocol(s@)) =~= spec_decode_protocol(s@)) by {
        if let Ok(rest) = spec_decode_protocol(s@) {
            assert(result@ + rest =~= rest);
        }
    }
    while i < s.len()
        invariant
            i <= s@.len(),
            s@ == protocol@,
            spec_decode_protocol(s@) == spec_prefixed(result@, spec_decode_protocol(s@.skip(i as int))),
        decreases s@.len() - i,
    {
        let ghost tail = s@.skip(i as int);
        assert(tail[0] == s@[i as int]);
        let c = s[i];
        if c == WEBSOCKET_PROTOCOL_RESERVED_CHAR {
            if s.len() - i < 3 {
                return Err(String::from_str("Not enough chars after %"));
            }
            let hex1 = s[i + 1];
            let hex2 = s[i + 2];
            assert(tail[1] == hex1 && tail[2] == hex2);
            match (hex_value(hex1), hex_value(hex2)) {
                (Some(n1), Some(n2)) => {
                    assert(n1 < 16 && n2 < 16);
                    let decoded = ((n1 * 16 + n2) as u8) as char;
                    assert(decoded == ((n1 * 16 + n2) as u32) as char);
                    assert(tail.skip(3) =~= s@.skip(i + 3));
                    let ghost before = result@;
                    result.push(decoded);
                    proof {
                        if let Ok(rest) = spec_decode_protocol(s@.skip(i + 3)) {
                            assert(result@ + rest =~= before + (seq![decoded] + rest));
                        }
                    }
                    i = i + 3;
                },
                _ => {
                    let mut message = String::from_str("Couldn't convert char to hex: ");
                    push_char(&mut message, hex1);
                    push_str(&mut message, " or ");
                    push_char(&mut message, hex2);
                    assert(message@ =~= "Couldn't convert char to hex: "@ + seq![tail[1]] + " or "@ + seq![tail[2]]);
                    return Err(message);
                },
            }
        } else if is_protocol_char(c) {
            assert(tail.drop_first() =~= s@.skip(i + 1));
            let ghost before = result@;
            result.push(c);
            proof {
                if let Ok(rest) = spec_decode_protocol(s@.skip(i + 1)) {
                    assert(result@ + rest =~= before + (seq![c] + rest));
                }
            }
            i = i + 1;
        } else {
            let mut message = String::from_str("Invalid Char Found: ");
            push_char(&mut message, c);
            assert(message@ =~= "Invalid Char Found: "@ + seq![tail[0]]);
            return Err(message);
        }
    }
    assert(s@.skip(i as int) =~= Seq::<char>::empty());
    assert(result@ + Seq::<char>::empty() =~= result@);
    Ok(string_from_chars(&result))
}

/// `byte_length` bytes from the thread-local generator
/// (`rand::rng().fill_bytes`). Any bytes may come out.
#[verifier::external_body]
fn random_bytes(byte_length: usize) -> (r: Vec<u8>)
    ensures
        r@.len() == byte_length,
{
    let mut bytes = vec![0u8; byte_length];
    rand::Rng::fill_bytes(&mut rand::rng(), &mut bytes);
    bytes
}

/// A random id: `byte_length` random bytes written as upper case
/// hexadecimal, two digits each.
pub fn random_hex_string(byte_length: usize) -> (s: String)
    ensures
        exists|b: Seq<u8>| b.len() == byte_length && s@ == spec_hex_upper(b),
{
    let bytes = random_bytes(byte_length);
    hex_upper(&bytes)
}

/// What happened on a Bare WebSocket relay between a client and a remote.
#[derive(Debug, Clone, Copy)]
pub enum BareRelayEvent {
    /// A message from one side was sent on to the other: `close` where it
    /// was a close message, `sent` where sending it succeeded.
    Passed { close: bool, sent: bool },
    /// A side's stream ended or failed.
    Ended,
}

/// What a Bare WebSocket relay does next: wait for the next message, or
/// stop and close both sides.
#[derive(Debug, Clone, Copy, PartialEq, Eq)]
pub enum BareRelayAction {
    Continue,
    CloseBoth,
}

/// A relay goes on only after a message that is not a close was sent on.
pub open spec fn spec_bare_relay_step(event: BareRelayEvent) -> BareRelayAction {
    match event {
        BareRelayEvent::Passed { close, sent } => if sent && !close {
            BareRelayAction::Continue
        } else {
            BareRelayAction::CloseBoth
        },
        BareRelayEvent::Ended => BareRelayAction::CloseBoth,
    }
}

/// Decides a Bare WebSocket relay's next step (see [`spec_bare_relay_step`]).
pub fn bare_relay_step(event: BareRelayEvent) -> (a: BareRelayAction)
    ensures
        a == spec_bare_relay_step(event),
{
    match event {
        BareRelayEvent::Passed { close, sent } => if sent && !close {
            BareRelayAction::Continue
        } else {
            BareRelayAction::CloseBoth
        },
        BareRelayEvent::Ended => BareRelayAction::CloseBoth,
    }
}

} // verus!

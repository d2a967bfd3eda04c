//! JSON values as the Bare protocol reads them, and the JSON text this crate
//! writes through `serde_json`.
use vstd::prelude::*;

verus! {

/// A parsed JSON value. Objects keep the order in which `serde_json` hands
/// out their members; a number is kept as its value when that value is a
/// non-negative integer that fits in `u64` (`Value::as_u64`).
#[derive(Debug)]
pub enum JsonValue {
    Null,
    Bool(bool),
    Number(Option<u64>),
    Str(String),
    Array(Vec<JsonValue>),
    Object(Vec<(String, JsonValue)>),
}

pub open spec fn spec_hex_lower_digit(d: nat) -> char {
    if d < 10 {
        (d + '0' as u32) as char
    } else {
        (d - 10 + 'a' as u32) as char
    }
}

/// How `serde_json` writes one character inside a string literal.
pub open spec fn spec_json_escape(c: char) -> Seq<char> {
    if c == '"' {
        seq!['\\', '"']
    } else if c == '\\' {
        seq!['\\', '\\']
    } else if c == '\x08' {
        seq!['\\', 'b']
    } else if c == '\x0c' {
        seq!['\\', 'f']
    } else if c == '\n' {
        seq!['\\', 'n']
    } else if c == '\r' {
        seq!['\\', 'r']
    } else if c == '\t' {
        seq!['\\', 't']
    } else if (c as u32) < 0x20 {
        seq![
            '\\',
            'u',
            '0',
            '0',
            spec_hex_lower_digit((c as u32 / 16) as nat),
            spec_hex_lower_digit((c as u32 % 16) as nat),
        ]
    } else {
        seq![c]
    }
}

pub open spec fn spec_json_escaped(s: Seq<char>) -> Seq<char>
    decreases s.len(),
{
    if s.len() == 0 {
        Seq::<char>::empty()
    } else {
        spec_json_escaped(s.drop_last()) + spec_json_escape(s.last())
    }
}

/// A string as a JSON string literal, the way `serde_json::to_string` writes it.
pub open spec fn spec_json_quoted(s: Seq<char>) -> Seq<char> {
    seq!['"'] + spec_json_escaped(s) + seq!['"']
}

/// The members of a list written one after the other, separated by commas.
pub open spec fn spec_json_joined(items: Seq<Seq<char>>) -> Seq<char>
    decreases items.len(),
{
    if items.len() == 0 {
        Seq::<char>::empty()
    } else if items.len() == 1 {
        spec_json_quoted(items[0])
    } else {
        spec_json_joined(items.drop_last()) + seq![','] + spec_json_quoted(items.last())
    }
}

/// A list of strings as a compact JSON array.
pub open spec fn spec_json_string_array(items: Seq<Seq<char>>) -> Seq<char> {
    seq!['['] + spec_json_joined(items) + seq![']']
}

/// One member of a JSON object whose values are strings: `"name":"value"`.
pub open spec fn spec_json_member(m: (Seq<char>, Seq<char>)) -> Seq<char> {
    spec_json_quoted(m.0) + seq![':'] + spec_json_quoted(m.1)
}

/// Members written one after the other, separated by commas.
pub open spec fn spec_json_members(ms: Seq<(Seq<char>, Seq<char>)>) -> Seq<char>
    decreases ms.len(),
{
    if ms.len() == 0 {
        Seq::<char>::empty()
    } else if ms.len() == 1 {
        spec_json_member(ms[0])
    } else {
        spec_json_members(ms.drop_last()) + seq![','] + spec_json_member(ms.last())
    }
}

/// A compact JSON object with string values, its members in the given order.
pub open spec fn spec_json_object(ms: Seq<(Seq<char>, Seq<char>)>) -> Seq<char> {
    seq!['{'] + spec_json_members(ms) + seq!['}']
}

/// What collecting `(name, value)` pairs into a map gives: a later value
/// for a name replaces an earlier one.
pub open spec fn spec_pairs_map(pairs: Seq<(Seq<char>, Seq<char>)>) -> Map<Seq<char>, Seq<char>>
    decreases pairs.len(),
{
    if pairs.len() == 0 {
        Map::empty()
    } else {
        spec_pairs_map(pairs.drop_last()).insert(pairs.last().0, pairs.last().1)
    }
}

/// Whether a list of members holds each entry of a map once, and nothing else.
pub open spec fn spec_lists_map(order: Seq<(Seq<char>, Seq<char>)>, m: Map<Seq<char>, Seq<char>>) -> bool {
    &&& order.len() == m.dom().len()
    &&& forall|i: int|
        0 <= i < order.len() ==> m.dom().contains(#[trigger] order[i].0) && m[order[i].0] == order[i].1
    &&& forall|i: int, j: int| 0 <= i < j < order.len() ==> #[trigger] order[i].0 != #[trigger] order[j].0
}

/// Whether a text is a compact JSON object of a map's entries, in some order.
pub open spec fn spec_is_json_object_of(text: Seq<char>, m: Map<Seq<char>, Seq<char>>) -> bool {
    exists|order: Seq<(Seq<char>, Seq<char>)>| spec_lists_map(order, m) && text == spec_json_object(order)
}

pub open spec fn spec_pairs_view(pairs: Seq<(String, String)>) -> Seq<(Seq<char>, Seq<char>)> {
    pairs.map_values(|p: (String, String)| (p.0@, p.1@))
}

/// `serde_json::to_string` of the `HashMap<String, String>` that the pairs
/// are collected into: a compact JSON object (`{`, members `"name":"value"`
/// separated by commas, `}`) whose members are the map's entries, each once,
/// names and values written as by [`json_quote`]. The order of the members
/// is the order in which that `HashMap` is walked, which its randomly seeded
/// hasher decides; it is left open. Serialising strings cannot fail.
#[verifier::external_body]
pub(crate) fn json_string_map(pairs: &Vec<(String, String)>) -> (r: String)
    ensures
        spec_is_json_object_of(r@, spec_pairs_map(spec_pairs_view(pairs@))),
{
    let map: std::collections::HashMap<String, String> = pairs.iter().cloned().collect();
    serde_json::to_string(&map).unwrap()
}

/// `serde_json::to_string` of a string slice: the string as a JSON string
/// literal, quoted, with `"` and `\` escaped, the control characters
/// `\b \f \n \r \t` written as such and the other characters below U+0020 as
/// `\u00XX` with lower case hexadecimal digits (serde_json's `ESCAPE` table).
/// Serialising a `str` cannot fail.
#[verifier::external_body]
pub(crate) fn json_quote(s: &str) -> (r: String)
    ensures
        r@ == spec_json_quoted(s@),
{
    serde_json::to_string(s).unwrap()
}

/// `serde_json::to_string` of a `Vec<String>`: a compact JSON array of the
/// strings as JSON string literals (see [`json_quote`]), separated by commas
/// with no spaces. Serialising strings cannot fail.
#[verifier::external_body]
pub(crate) fn json_string_array(items: &Vec<String>) -> (r: String)
    ensures
        r@ == spec_json_string_array(items@.map_values(|x: String| x@)),
{
    serde_json::to_string(items).unwrap()
}

/// `serde_json::Value`, as the parse wrappers below receive it from
/// `serde_json` before copying it into a [`JsonValue`].
#[verifier::external_type_specification]
#[verifier::external_body]
pub struct ExSerdeValue(serde_json::Value);

/// Copies a `serde_json::Value` into a [`JsonValue`] one for one: each
/// variant to the variant of the same name, a number to
/// `serde_json::Number::as_u64`, the items of an array and the members of an
/// object in the order `serde_json` hands them out. It is the conversion
/// step of the parse wrappers below and claims nothing of its own.
#[verifier::external_body]
fn json_from_serde(v: serde_json::Value) -> JsonValue {
    match v {
        serde_json::Value::Null => JsonValue::Null,
        serde_json::Value::Bool(b) => JsonValue::Bool(b),
        serde_json::Value::Number(n) => JsonValue::Number(n.as_u64()),
        serde_json::Value::String(s) => JsonValue::Str(s),
        serde_json::Value::Array(a) => JsonValue::Array(a.into_iter().map(json_from_serde).collect()),
        serde_json::Value::Object(m) => JsonValue::Object(m.into_iter().map(|(k, x)| (k, json_from_serde(x))).collect()),
    }
}

/// The members of the JSON object that a text holds, in the order in which
/// `serde_json` hands them out; `None` where the text is not a JSON object.
pub uninterp spec fn json_object_members(text: Seq<u8>) -> Option<Seq<(Seq<char>, JsonValue)>>;

/// The items of the JSON array that a text holds; `None` where the text is
/// not a JSON array.
pub uninterp spec fn json_array_items(text: Seq<u8>) -> Option<Seq<JsonValue>>;

/// The JSON value that a text holds; `None` where the text is not JSON.
pub uninterp spec fn json_value_of(text: Seq<char>) -> Option<JsonValue>;

pub open spec fn members_view(ms: Seq<(String, JsonValue)>) -> Seq<(Seq<char>, JsonValue)> {
    ms.map_values(|m: (String, JsonValue)| (m.0@, m.1))
}

pub open spec fn opt_members_view(ms: Option<Vec<(String, JsonValue)>>) -> Option<Seq<(Seq<char>, JsonValue)>> {
    match ms {
        Some(v) => Some(members_view(v@)),
        None => None,
    }
}

pub open spec fn opt_items_view(items: Option<Vec<JsonValue>>) -> Option<Seq<JsonValue>> {
    match items {
        Some(v) => Some(v@),
        None => None,
    }
}

/// `serde_json::from_slice::<serde_json::Map<String, Value>>` on the text,
/// the members copied into the library's types: the result is named
/// [`json_object_members`] of the text, a function of the text alone (the
/// map is serde_json's ordered `BTreeMap`).
#[verifier::external_body]
pub(crate) fn parse_json_object(text: &Vec<u8>) -> (r: Option<Vec<(String, JsonValue)>>)
    ensures
        opt_members_view(r) == json_object_members(text@),
{
    let map = serde_json::from_slice::<serde_json::Map<String, serde_json::Value>>(text).ok()?;
    Some(map.into_iter().map(|(k, v)| (k, json_from_serde(v))).collect())
}

/// `serde_json::from_slice::<Vec<serde_json::Value>>` on the text, the items
/// copied into [`JsonValue`]s: the result is named [`json_array_items`] of
/// the text.
#[verifier::external_body]
pub(crate) fn parse_json_array(text: &Vec<u8>) -> (r: Option<Vec<JsonValue>>)
    ensures
        opt_items_view(r) == json_array_items(text@),
{
    let items = serde_json::from_slice::<Vec<serde_json::Value>>(text).ok()?;
    Some(items.into_iter().map(json_from_serde).collect())
}

/// `serde_json::from_str::<serde_json::Value>` on the text, copied into a
/// [`JsonValue`]: the result is named [`json_value_of`] of the text.
#[verifier::external_body]
pub(crate) fn parse_json_text(text: &str) -> (r: Option<JsonValue>)
    ensures
        r == json_value_of(text@),
{
    let v = serde_json::from_str::<serde_json::Value>(text).ok()?;
    Some(json_from_serde(v))
}

} // verus!

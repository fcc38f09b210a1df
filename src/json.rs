//! JSON pieces of the request objects sent to host services, written by
//! serde_json, with what serde_json writes for each stated.
use std::collections::BTreeMap;

use vstd::prelude::*;

verus! {

#[verifier::external_type_specification]
#[verifier::external_body]
pub struct ExJsonError(serde_json::Error);

/// Lower-case hexadecimal digit `d`.
pub open spec fn hex_digit(d: nat) -> char {
    seq!['0', '1', '2', '3', '4', '5', '6', '7', '8', '9', 'a', 'b', 'c', 'd', 'e', 'f'][d as int]
}

/// How serde_json writes the character `c` inside a string literal: quote and
/// backslash escaped, the five short escapes, other control characters below
/// U+0020 as `\u00xx`, everything else as it is.
pub open spec fn escaped_char(c: char) -> Seq<char> {
    if c == '"' {
        seq!['\\', '"']
    } else if c == '\\' {
        seq!['\\', '\\']
    } else if c == '\u{8}' {
        seq!['\\', 'b']
    } else if c == '\t' {
        seq!['\\', 't']
    } else if c == '\n' {
        seq!['\\', 'n']
    } else if c == '\u{c}' {
        seq!['\\', 'f']
    } else if c == '\r' {
        seq!['\\', 'r']
    } else if (c as u32) < 0x20 {
        seq!['\\', 'u', '0', '0', hex_digit((c as u32 / 16) as nat), hex_digit((c as u32 % 16) as nat)]
    } else {
        seq![c]
    }
}

/// The JSON string literal that serde_json writes for the text `s`.
pub open spec fn json_quoted(s: Seq<char>) -> Seq<char> {
    seq!['"'] + s.map_values(|c: char| escaped_char(c)).flatten() + seq!['"']
}

/// Relies on serde_json::to_string on a `str`: it writes the escaped string
/// literal into a vector, which cannot fail.
#[verifier::external_body]
pub(crate) fn quote_json(s: &str) -> (r: Result<String, serde_json::Error>)
    ensures
        r is Ok,
        r matches Ok(t) ==> t@ == json_quoted(s@),
{
    serde_json::to_string(s)
}

/// Relies on serde_json::to_string on a byte slice: it writes a JSON array of
/// the bytes in decimal into a vector, which cannot fail.
#[verifier::external_body]
pub(crate) fn bytes_json(b: &[u8]) -> (r: Result<String, serde_json::Error>)
    ensures
        r is Ok,
        r matches Ok(t) ==> t@ == json_byte_array(b@),
{
    serde_json::to_string(b)
}

/// Relies on serde_json::to_string on a map from names to lists of strings:
/// it writes a JSON object with the entries in the map's key order, which
/// cannot fail since the keys are strings.
#[verifier::external_body]
pub(crate) fn string_map_json(m: &BTreeMap<String, Vec<String>>) -> (r: Result<String, serde_json::Error>)
    ensures
        r is Ok,
        r matches Ok(t) ==> t@ == json_string_map(m.deep_view()),
{
    serde_json::to_string(m)
}

/// Whether `a` comes strictly before `b` in the order of `String`: by
/// characters from the left, a proper prefix first.
pub open spec fn text_less(a: Seq<char>, b: Seq<char>) -> bool
    decreases a.len(),
{
    if a.len() == 0 {
        b.len() > 0
    } else if b.len() == 0 {
        false
    } else if a[0] != b[0] {
        (a[0] as u32) < (b[0] as u32)
    } else {
        text_less(a.drop_first(), b.drop_first())
    }
}

/// The keys of `m` in increasing order.
pub open spec fn sorted_keys(m: Map<Seq<char>, Seq<Seq<char>>>) -> Seq<Seq<char>> {
    choose|ks: Seq<Seq<char>>|
        ks.to_set() == m.dom() && ks.len() == m.dom().len()
            && forall|i: int, j: int| 0 <= i < j < ks.len() ==> text_less(#[trigger] ks[i], #[trigger] ks[j])
}

/// The JSON object serde_json writes for a map from names to lists of strings.
pub open spec fn json_string_map(m: Map<Seq<char>, Seq<Seq<char>>>) -> Seq<char> {
    "{"@ + joined(
        sorted_keys(m).map_values(|k: Seq<char>| json_quoted(k) + ":"@ + json_string_array(m[k])),
    ) + "}"@
}

/// The items separated by commas.
pub open spec fn joined(items: Seq<Seq<char>>) -> Seq<char>
    decreases items.len(),
{
    if items.len() == 0 {
        Seq::empty()
    } else if items.len() == 1 {
        items[0]
    } else {
        joined(items.drop_last()) + ","@ + items.last()
    }
}

/// Adding one item to a prefix of a list adds a comma, unless it is the
/// first, and the item.
pub proof fn lemma_joined_step(items: Seq<Seq<char>>, i: int)
    requires
        0 <= i < items.len(),
    ensures
        joined(items.subrange(0, i + 1)) == if i == 0 {
            items[0]
        } else {
            joined(items.subrange(0, i)) + ","@ + items[i]
        },
{
    assert(items.subrange(0, i + 1).drop_last() =~= items.subrange(0, i));
}

/// The decimal digit `d` as text.
pub open spec fn digit_text(d: nat) -> Seq<char> {
    if d == 0 { "0"@ }
    else if d == 1 { "1"@ }
    else if d == 2 { "2"@ }
    else if d == 3 { "3"@ }
    else if d == 4 { "4"@ }
    else if d == 5 { "5"@ }
    else if d == 6 { "6"@ }
    else if d == 7 { "7"@ }
    else if d == 8 { "8"@ }
    else { "9"@ }
}

/// `n` in decimal, without leading zeros.
pub open spec fn decimal(n: nat) -> Seq<char>
    decreases n,
{
    if n < 10 {
        digit_text(n)
    } else {
        decimal(n / 10) + digit_text(n % 10)
    }
}

/// The JSON array of numbers that serde_json writes for a byte sequence.
pub open spec fn json_byte_array(b: Seq<u8>) -> Seq<char> {
    "["@ + joined(b.map_values(|x: u8| decimal(x as nat))) + "]"@
}

/// The JSON array of strings for a list of texts.
pub open spec fn json_string_array(items: Seq<Seq<char>>) -> Seq<char> {
    "["@ + joined(items.map_values(|s: Seq<char>| json_quoted(s))) + "]"@
}

} // verus!

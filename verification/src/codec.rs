//! Text encodings of session fields, computed by the `uuid` and `serde_json`
//! crates. Every item here that makes an outside call is trusted: its
//! contract restates what the crate's source does and is not proved.
use vstd::prelude::*;
use vstd::arithmetic::power2::pow2;

verus! {

/// Lower-case hexadecimal digit for a value in `0..16`.
pub open spec fn hex_digit_lower(d: int) -> char {
    if d < 10 {
        (48 + d) as char
    } else {
        (87 + d) as char
    }
}

/// The `k`-th hexadecimal digit (from the most significant one) of a
/// 128-bit identifier.
pub open spec fn uuid_nibble(v: u128, k: int) -> int {
    ((v as int) / (pow2((124 - 4 * k) as nat) as int)) % 16
}

/// The 32 lower-case hexadecimal digits of an identifier, most significant first.
pub open spec fn uuid_hex_digits(v: u128) -> Seq<char> {
    Seq::new(32, |k: int| hex_digit_lower(uuid_nibble(v, k)))
}

/// The hyphenated text form `xxxxxxxx-xxxx-xxxx-xxxx-xxxxxxxxxxxx` of an identifier.
pub open spec fn uuid_hyphenated(v: u128) -> Seq<char> {
    let h = uuid_hex_digits(v);
    h.subrange(0, 8) + seq!['-'] + h.subrange(8, 12) + seq!['-'] + h.subrange(12, 16) + seq!['-']
        + h.subrange(16, 20) + seq!['-'] + h.subrange(20, 32)
}

/// The version field of an identifier (its thirteenth hexadecimal digit).
pub open spec fn uuid_version(v: u128) -> int {
    uuid_nibble(v, 12)
}

/// The variant field of an identifier is the RFC 4122 one (binary `10`): its
/// seventeenth hexadecimal digit lies in `8..12`.
pub open spec fn uuid_variant_is_rfc4122(v: u128) -> bool {
    8 <= uuid_nibble(v, 16) < 12
}

/// The identifier that `uuid::Uuid::parse_str` reads from a text, if it accepts it.
pub uninterp spec fn uuid_parsed(text: Seq<char>) -> Option<u128>;

/// How `serde_json` writes one character inside a JSON string.
pub open spec fn json_escape_char(c: char) -> Seq<char> {
    if c == '"' {
        seq!['\\', '"']
    } else if c == '\\' {
        seq!['\\', '\\']
    } else if c == '\u{8}' {
        seq!['\\', 'b']
    } else if c == '\t' {
        seq!['\\', 't']
    } else if c == '\n' {
        seq!['\\', 'n']
    } else if c == '\u{c}' {
        seq!['\\', 'f']
    } else if c == '\r' {
        seq!['\\', 'r']
    } else if (c as int) < 32 {
        seq!['\\', 'u', '0', '0', hex_digit_lower((c as int) / 16), hex_digit_lower((c as int) % 16)]
    } else {
        seq![c]
    }
}

/// The escaped contents of a JSON string.
pub open spec fn json_escape(s: Seq<char>) -> Seq<char>
    decreases s.len(),
{
    if s.len() == 0 {
        Seq::empty()
    } else {
        json_escape(s.drop_last()) + json_escape_char(s.last())
    }
}

/// A JSON string literal.
pub open spec fn json_string(s: Seq<char>) -> Seq<char> {
    seq!['"'] + json_escape(s) + seq!['"']
}

/// The comma-separated string literals of a list, without brackets.
pub open spec fn json_items(v: Seq<Seq<char>>) -> Seq<char>
    decreases v.len(),
{
    if v.len() == 0 {
        Seq::empty()
    } else if v.len() == 1 {
        json_string(v[0])
    } else {
        json_items(v.drop_last()) + seq![','] + json_string(v.last())
    }
}

/// The compact JSON array text of a list of strings, as `serde_json::to_string` writes it.
pub open spec fn json_string_array(v: Seq<Seq<char>>) -> Seq<char> {
    seq!['['] + json_items(v) + seq![']']
}

/// The list of strings that `serde_json::from_str::<Vec<String>>` reads from a text,
/// if it accepts it.
pub uninterp spec fn json_string_list_parsed(text: Seq<char>) -> Option<Seq<Seq<char>>>;

/// Calls `uuid::Uuid::now_v7`, which builds a version 7 identifier from the clock
/// and a random counter. The contract claims only the version digit and the
/// RFC 4122 variant bits; the value itself depends on the time and on chance.
#[verifier::external_body]
pub(crate) fn new_session_id() -> (id: u128)
    ensures
        uuid_version(id) == 7,
        uuid_variant_is_rfc4122(id),
{
    uuid::Uuid::now_v7().as_u128()
}

/// Calls `uuid::Uuid::from_u128(..).to_string()`. The `Display` impl of `Uuid`
/// writes the hyphenated lower-case form: 32 hexadecimal digits of the
/// big-endian value, grouped 8-4-4-4-12.
#[verifier::external_body]
pub(crate) fn uuid_to_text(id: u128) -> (text: String)
    ensures
        text@ == uuid_hyphenated(id),
{
    uuid::Uuid::from_u128(id).to_string()
}

/// Calls `uuid::Uuid::parse_str` and takes the value of an accepted text by
/// `as_u128`. Which texts are accepted is left to the name `uuid_parsed`; the
/// contract adds that the hyphenated lower-case form of any identifier, which
/// the parser accepts, is read back as that identifier.
#[verifier::external_body]
pub(crate) fn uuid_from_text(text: &str) -> (id: Option<u128>)
    ensures
        id == uuid_parsed(text@),
        forall|v: u128| #[trigger] uuid_hyphenated(v) == text@ ==> id == Some(v),
{
    match uuid::Uuid::parse_str(text) {
        Ok(u) => Some(u.as_u128()),
        Err(_) => None,
    }
}

/// Calls `serde_json::to_string` on a list of strings. The compact serializer
/// writes `[`, the string literals separated by `,`, and `]`; inside a literal it
/// escapes `"`, `\` and the characters below U+0020 and copies every other
/// character. Serializing strings into memory cannot fail, so the `Err` case of
/// the call is never taken.
#[verifier::external_body]
pub(crate) fn audience_to_json(list: &Vec<String>) -> (text: String)
    ensures
        text@ == json_string_array(list.deep_view()),
{
    serde_json::to_string(list).unwrap()
}

/// Calls `serde_json::from_str::<Vec<String>>`. Which texts are accepted is left to
/// the name `json_string_list_parsed`; the contract adds that a text written by
/// the serializer for a list of strings is read back as that list.
#[verifier::external_body]
pub(crate) fn audience_from_json(text: &str) -> (list: Option<Vec<String>>)
    ensures
        list.is_some() == json_string_list_parsed(text@).is_some(),
        list is Some ==> json_string_list_parsed(text@) == Some(list->0.deep_view()),
        forall|v: Seq<Seq<char>>| #[trigger] json_string_array(v) == text@ ==> (list is Some && list->0.deep_view() == v),
{
    match serde_json::from_str::<Vec<String>>(text) {
        Ok(v) => Some(v),
        Err(_) => None,
    }
}

} // verus!

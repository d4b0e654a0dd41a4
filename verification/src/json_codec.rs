use vstd::prelude::*;

use crate::text::{decimal_text, digit_char};

verus! {

/// A JSON value that is a number or a string, as the library writes them.
pub enum JsonScalar {
    Number(u64),
    Text(String),
}

/// What a `JsonScalar` holds, as plain values.
pub enum JsonScalarView {
    Number(u64),
    Text(Seq<char>),
}

impl DeepView for JsonScalar {
    type V = JsonScalarView;

    open spec fn deep_view(&self) -> JsonScalarView {
        match self {
            JsonScalar::Number(n) => JsonScalarView::Number(*n),
            JsonScalar::Text(s) => JsonScalarView::Text(s@),
        }
    }
}

/// The text that the `json` crate writes for an object with the given
/// members, in the given order.
pub uninterp spec fn json_object_text(members: Seq<(Seq<char>, JsonScalarView)>) -> Seq<char>;

/// A lowercase hexadecimal digit, for `d` below sixteen.
pub open spec fn hex_digit(d: nat) -> char {
    if d < 10 {
        digit_char(d)
    } else {
        ((d - 10 + 97) as u32) as char
    }
}

/// How the `json` crate writes one character inside a string: `"` and `\`
/// behind a backslash, the control characters that have a short escape with
/// it, other control characters as `\u00` and two hexadecimal digits, and
/// every other character as it is.
pub open spec fn escaped_char(c: char) -> Seq<char> {
    if c == '"' {
        seq!['\\', '"']
    } else if c == '\\' {
        seq!['\\', '\\']
    } else if c == '\u{8}' {
        seq!['\\', 'b']
    } else if c == '\t' {
        seq!['\\', 't']
    } else if c == '\n' {
        seq!['\\', 'n']
    } else if c == '\u{c}' {
        seq!['\\', 'f']
    } else if c == '\r' {
        seq!['\\', 'r']
    } else if (c as u32) < 0x20 {
        seq!['\\', 'u', '0', '0', hex_digit((c as u32) as nat / 16), hex_digit((c as u32) as nat % 16)]
    } else {
        seq![c]
    }
}

/// The characters of a string, each escaped.
pub open spec fn escaped_text(text: Seq<char>) -> Seq<char>
    decreases text.len(),
{
    if text.len() == 0 {
        Seq::empty()
    } else {
        escaped_char(text[0]) + escaped_text(text.drop_first())
    }
}

/// A JSON string literal.
pub open spec fn json_string_text(text: Seq<char>) -> Seq<char> {
    seq!['"'] + escaped_text(text) + seq!['"']
}

/// A number in decimal, or a string literal.
pub open spec fn json_scalar_text(value: JsonScalarView) -> Seq<char> {
    match value {
        JsonScalarView::Number(n) => decimal_text(n as nat),
        JsonScalarView::Text(s) => json_string_text(s),
    }
}

/// One member: its key, a colon, its value.
pub open spec fn json_member_text(member: (Seq<char>, JsonScalarView)) -> Seq<char> {
    json_string_text(member.0) + seq![':'] + json_scalar_text(member.1)
}

/// The members, separated by commas.
pub open spec fn json_members_text(members: Seq<(Seq<char>, JsonScalarView)>) -> Seq<char>
    decreases members.len(),
{
    if members.len() == 0 {
        Seq::empty()
    } else if members.len() == 1 {
        json_member_text(members[0])
    } else {
        json_members_text(members.drop_last()) + seq![','] + json_member_text(members.last())
    }
}

/// A compact JSON object with the given members, in the given order.
pub open spec fn json_object_written(members: Seq<(Seq<char>, JsonScalarView)>) -> Seq<char> {
    seq!['{'] + json_members_text(members) + seq!['}']
}

/// No two members share a key.
pub open spec fn keys_distinct(members: Seq<(Seq<char>, JsonScalarView)>) -> bool {
    forall|i: int, j: int|
        0 <= i < j < members.len() ==> #[trigger] members[i].0 != #[trigger] members[j].0
}

/// What reading the member `key` gives of a written object with the given
/// members: a string member's text, or a number member's value; nothing when
/// no member has that key.
pub open spec fn written_member(members: Seq<(Seq<char>, JsonScalarView)>, key: Seq<char>) -> (
    Option<Seq<char>>,
    Option<u64>,
) {
    if exists|i: int| 0 <= i < members.len() && #[trigger] members[i].0 == key {
        let i = choose|i: int| 0 <= i < members.len() && #[trigger] members[i].0 == key;
        match members[i].1 {
            JsonScalarView::Number(n) => (None, Some(n)),
            JsonScalarView::Text(t) => (Some(t), None),
        }
    } else {
        (None, None)
    }
}

/// What the `json` crate reads from the JSON text `text` for the member
/// `key`: `None` when the text is no JSON; otherwise what `JsonValue::as_str`
/// and `JsonValue::as_u64` give for the member (each `None` when the member is
/// missing or of another kind).
pub uninterp spec fn json_member_reading(text: Seq<char>, key: Seq<char>) -> Option<
    (Option<Seq<char>>, Option<u64>),
>;

/// The string member `key` of the JSON text `text`: `None` when the text is
/// no JSON, `Some(None)` when the member is missing or no string.
pub open spec fn json_string_member(text: Seq<char>, key: Seq<char>) -> Option<Option<Seq<char>>> {
    match json_member_reading(text, key) {
        None => None,
        Some((s, _)) => Some(s),
    }
}

/// The unsigned integer member `key` of the JSON text `text`: `None` when the
/// text is no JSON, `Some(None)` when the member is missing or no number that
/// fits a `u64`.
pub open spec fn json_u64_member(text: Seq<char>, key: Seq<char>) -> Option<Option<u64>> {
    match json_member_reading(text, key) {
        None => None,
        Some((_, n)) => Some(n),
    }
}

/// Calls `json::stringify` on an object built, member by member in order,
/// from `members`. Its text is named `json_object_text`. When no key comes
/// twice, the crate's compact writer (`DumpGenerator`: members in insertion
/// order, `:` and `,` without spaces, strings escaped through its `ESCAPED`
/// table, `u64` numbers in plain decimal) gives `json_object_written`.
#[verifier::external_body]
pub(crate) fn object_text(members: &Vec<(String, JsonScalar)>) -> (text: String)
    ensures
        text@ == json_object_text(members.deep_view()),
        keys_distinct(members.deep_view()) ==> text@ == json_object_written(members.deep_view()),
{
    let mut object = json::JsonValue::new_object();
    for (key, value) in members.iter() {
        object[key.as_str()] = match value {
            JsonScalar::Number(n) => json::JsonValue::from(*n),
            JsonScalar::Text(s) => json::JsonValue::from(s.as_str()),
        };
    }
    json::stringify(object)
}

/// Calls `json::parse` on `text`, indexes the parsed value with `key`, and
/// reads the member with `JsonValue::as_str` and `JsonValue::as_u64`. The
/// outcome is named `json_member_reading`. On a compact object text with
/// distinct keys (as `object_text` writes it), the parser gives back what was
/// written: it undoes each string escape, reads a plain decimal number that
/// fits a `u64` exactly (mantissa, exponent zero), and indexing finds the
/// member with that key, or `Null` when there is none.
#[verifier::external_body]
fn read_member(text: &str, key: &str) -> (reading: Option<(Option<String>, Option<u64>)>)
    ensures
        reading.deep_view() == json_member_reading(text@, key@),
        forall|members: Seq<(Seq<char>, JsonScalarView)>|
            keys_distinct(members) && #[trigger] json_object_written(members) == text@
                ==> reading.deep_view() == Some(written_member(members, key@)),
{
    match json::parse(text) {
        Ok(value) => {
            let member = &value[key];
            Some((member.as_str().map(String::from), member.as_u64()))
        },
        Err(_) => None,
    }
}

/// The string member `key` of the JSON text `text`.
pub fn string_member(text: &str, key: &str) -> (member: Option<Option<String>>)
    ensures
        member.deep_view() == json_string_member(text@, key@),
        forall|members: Seq<(Seq<char>, JsonScalarView)>|
            keys_distinct(members) && #[trigger] json_object_written(members) == text@
                ==> member.deep_view() == Some(written_member(members, key@).0),
{
    match read_member(text, key) {
        None => None,
        Some((s, _)) => Some(s),
    }
}

/// The unsigned integer member `key` of the JSON text `text`.
pub fn u64_member(text: &str, key: &str) -> (member: Option<Option<u64>>)
    ensures
        member == json_u64_member(text@, key@),
        forall|members: Seq<(Seq<char>, JsonScalarView)>|
            keys_distinct(members) && #[trigger] json_object_written(members) == text@
                ==> member == Some(written_member(members, key@).1),
{
    match read_member(text, key) {
        None => None,
        Some((_, n)) => Some(n),
    }
}

} // verus!

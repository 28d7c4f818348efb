//! A shallow view of a JSON document and typed readers for the members of
//! a JSON object.
//!
//! A document is read one level at a time: parsing yields the kind of the
//! top-level value, and for arrays and objects the JSON text of each element
//! or member, which is parsed again when it is needed.

use serde_json::Value;
use vstd::prelude::*;

verus! {

/// One level of a parsed JSON document.
#[derive(Debug, Clone)]
pub enum JsonValue {
    Null,
    Bool(bool),
    /// The number as it is written in compact JSON.
    Number(String),
    Text(String),
    /// The compact JSON text of each element, in order.
    Array(Vec<String>),
    /// Each member's name with the compact JSON text of its value.
    Object(Vec<(String, String)>),
}

/// The mathematical value of a [`JsonValue`].
pub enum JsonShape {
    Null,
    Bool(bool),
    Number(Seq<char>),
    Text(Seq<char>),
    Array(Seq<Seq<char>>),
    Object(Seq<(Seq<char>, Seq<char>)>),
}

impl View for JsonValue {
    type V = JsonShape;

    open spec fn view(&self) -> JsonShape {
        match self {
            JsonValue::Null => JsonShape::Null,
            JsonValue::Bool(b) => JsonShape::Bool(*b),
            JsonValue::Number(n) => JsonShape::Number(n@),
            JsonValue::Text(s) => JsonShape::Text(s@),
            JsonValue::Array(items) => JsonShape::Array(items.deep_view()),
            JsonValue::Object(members) => JsonShape::Object(members.deep_view()),
        }
    }
}

/// What parsing `text` as one JSON document gives; `None` when it is not
/// JSON.
pub uninterp spec fn json_parsed(text: Seq<char>) -> Option<JsonShape>;

/// Relies on `serde_json::from_str::<serde_json::Value>` to parse a JSON
/// document, and on `Display` of `serde_json::Value` (compact form) to hand
/// back the text of each element or member; the result is a function of the
/// text alone.
#[verifier::external_body]
pub(crate) fn parse_json(text: &str) -> (r: Option<JsonValue>)
    ensures
        json_parsed(text@) == match r {
            Some(v) => Some(v@),
            None => None,
        },
{
    Some(match serde_json::from_str::<Value>(text).ok()? {
        Value::Null => JsonValue::Null,
        Value::Bool(b) => JsonValue::Bool(b),
        Value::Number(n) => JsonValue::Number(n.to_string()),
        Value::String(s) => JsonValue::Text(s),
        Value::Array(a) => JsonValue::Array(a.iter().map(Value::to_string).collect()),
        Value::Object(m) => JsonValue::Object(m.into_iter().map(|(k, v)| (k, v.to_string())).collect()),
    })
}

/// A lowercase hexadecimal digit.
pub open spec fn hex_digit(n: int) -> char {
    "0123456789abcdef"@[n]
}

/// How a JSON string literal writes the character `c`: `"` and `\\` and
/// the control characters are escaped (with a short escape where there is
/// one, else as `\u00XX`), and every other character stands for itself.
pub open spec fn json_escaped_char(c: char) -> Seq<char> {
    if c == '"' {
        seq!['\\', '"']
    } else if c == '\\' {
        seq!['\\', '\\']
    } else if c == '\u{8}' {
        seq!['\\', 'b']
    } else if c == '\t' {
        seq!['\\', 't']
    } else if c == '\n' {
        seq!['\\', 'n']
    } else if c == '\u{c}' {
        seq!['\\', 'f']
    } else if c == '\r' {
        seq!['\\', 'r']
    } else if (c as u32) < 0x20 {
        seq!['\\', 'u', '0', '0', hex_digit((c as u32) as int / 16), hex_digit((c as u32) as int % 16)]
    } else {
        seq![c]
    }
}

/// The characters of `s`, each written as a JSON string literal writes it.
pub open spec fn json_escaped(s: Seq<char>) -> Seq<char>
    decreases s.len(),
{
    if s.len() == 0 {
        Seq::empty()
    } else {
        json_escaped(s.drop_last()) + json_escaped_char(s.last())
    }
}

/// The JSON string literal that stands for `s`.
pub open spec fn json_quoted(s: Seq<char>) -> Seq<char> {
    seq!['"'] + json_escaped(s) + seq!['"']
}

/// Relies on `serde_json::to_string` of a `str` (`format_escaped_str` with
/// its `ESCAPE` table): the text between quotes, with `"`, `\\` and the
/// control characters escaped; it does not fail on a `str`.
#[verifier::external_body]
pub(crate) fn quote_json(s: &str) -> (r: String)
    ensures
        r@ == json_quoted(s@),
{
    match serde_json::to_string(s) {
        Ok(t) => t,
        Err(_) => String::new(),
    }
}

/// The JSON text of the first member of `members` named `key`.
pub open spec fn member_text(members: Seq<(Seq<char>, Seq<char>)>, key: Seq<char>) -> Option<Seq<char>>
    decreases members.len(),
{
    if members.len() == 0 {
        None
    } else if members[0].0 == key {
        Some(members[0].1)
    } else {
        member_text(members.drop_first(), key)
    }
}

/// The string held by the JSON text `t`, if it holds a string.
pub open spec fn string_in(t: Seq<char>) -> Option<Seq<char>> {
    match json_parsed(t) {
        Some(JsonShape::Text(s)) => Some(s),
        _ => None,
    }
}

/// A string member read leniently: the empty string when it is missing or
/// is not a string.
pub open spec fn lenient_text(members: Seq<(Seq<char>, Seq<char>)>, key: Seq<char>) -> Seq<char> {
    match member_text(members, key) {
        Some(t) => match string_in(t) {
            Some(s) => s,
            None => Seq::empty(),
        },
        None => Seq::empty(),
    }
}

/// A string member of a schema: the empty string when missing, `None`
/// when it holds anything but a string.
pub open spec fn schema_text(members: Seq<(Seq<char>, Seq<char>)>, key: Seq<char>) -> Option<Seq<char>> {
    match member_text(members, key) {
        Some(t) => string_in(t),
        None => Some(Seq::empty()),
    }
}

/// A boolean member of a schema: `false` when missing, `None` when it
/// holds anything but a boolean.
pub open spec fn schema_bool(members: Seq<(Seq<char>, Seq<char>)>, key: Seq<char>) -> Option<bool> {
    match member_text(members, key) {
        Some(t) => match json_parsed(t) {
            Some(JsonShape::Bool(b)) => Some(b),
            _ => None,
        },
        None => Some(false),
    }
}

/// An optional string member of a schema: absent when missing or `null`,
/// `None` when it holds anything but a string or `null`.
pub open spec fn schema_optional_text(members: Seq<(Seq<char>, Seq<char>)>, key: Seq<char>) -> Option<Option<Seq<char>>> {
    match member_text(members, key) {
        Some(t) => match json_parsed(t) {
            Some(JsonShape::Null) => Some(None),
            Some(JsonShape::Text(s)) => Some(Some(s)),
            _ => None,
        },
        None => Some(None),
    }
}

/// The strings held by the JSON texts `items`, if each holds a string.
pub open spec fn strings_in(items: Seq<Seq<char>>) -> Option<Seq<Seq<char>>>
    decreases items.len(),
{
    if items.len() == 0 {
        Some(Seq::empty())
    } else {
        match strings_in(items.drop_last()) {
            Some(prefix) => match string_in(items.last()) {
                Some(s) => Some(prefix.push(s)),
                None => None,
            },
            None => None,
        }
    }
}

/// A list-of-strings member of a schema: empty when missing, `None` when
/// it is not an array of strings.
pub open spec fn schema_text_list(members: Seq<(Seq<char>, Seq<char>)>, key: Seq<char>) -> Option<Seq<Seq<char>>> {
    match member_text(members, key) {
        Some(t) => match json_parsed(t) {
            Some(JsonShape::Array(items)) => strings_in(items),
            _ => None,
        },
        None => Some(Seq::empty()),
    }
}

/// The JSON text of the first member named `key`.
pub fn find_member<'a>(members: &'a Vec<(String, String)>, key: &str) -> (r: Option<&'a String>)
    ensures
        r.is_some() == member_text(members.deep_view(), key@).is_some(),
        r matches Some(t) ==> member_text(members.deep_view(), key@) == Some(t@),
{
    let wanted = String::from_str(key);
    let ghost all = members.deep_view();
    let mut i: usize = 0;
    assert(all.skip(0) =~= all);
    while i < members.len()
        invariant
            i <= members.len(),
            all == members.deep_view(),
            wanted@ == key@,
            member_text(all, key@) == member_text(all.skip(i as int), key@),
        decreases members.len() - i,
    {
        assert(all.skip(i as int).drop_first() =~= all.skip(i + 1));
        if members[i].0 == wanted {
            return Some(&members[i].1);
        }
        i += 1;
    }
    None
}

/// A string member read leniently (see [`lenient_text`]).
pub fn read_lenient_text(members: &Vec<(String, String)>, key: &str) -> (r: String)
    ensures
        r@ == lenient_text(members.deep_view(), key@),
{
    match read_schema_text(members, key) {
        Some(s) => s,
        None => String::new(),
    }
}

/// A string member of a schema (see [`schema_text`]).
pub fn read_schema_text(members: &Vec<(String, String)>, key: &str) -> (r: Option<String>)
    ensures
        r.deep_view() == schema_text(members.deep_view(), key@),
{
    match find_member(members, key) {
        Some(t) => read_string(t.as_str()),
        None => Some(String::new()),
    }
}

/// The string held by the JSON text `t`.
pub fn read_string(t: &str) -> (r: Option<String>)
    ensures
        r.deep_view() == string_in(t@),
{
    match parse_json(t) {
        Some(JsonValue::Text(s)) => Some(s),
        _ => None,
    }
}

/// A boolean member of a schema (see [`schema_bool`]).
pub fn read_schema_bool(members: &Vec<(String, String)>, key: &str) -> (r: Option<bool>)
    ensures
        r == schema_bool(members.deep_view(), key@),
{
    match find_member(members, key) {
        Some(t) => match parse_json(t.as_str()) {
            Some(JsonValue::Bool(b)) => Some(b),
            _ => None,
        },
        None => Some(false),
    }
}

/// An optional string member of a schema (see [`schema_optional_text`]).
pub fn read_schema_optional_text(members: &Vec<(String, String)>, key: &str) -> (r: Option<Option<String>>)
    ensures
        r.deep_view() == schema_optional_text(members.deep_view(), key@),
{
    match find_member(members, key) {
        Some(t) => match parse_json(t.as_str()) {
            Some(JsonValue::Null) => Some(None),
            Some(JsonValue::Text(s)) => Some(Some(s)),
            _ => None,
        },
        None => Some(None),
    }
}

/// The strings held by the JSON texts `items` (see [`strings_in`]).
pub fn read_strings(items: &Vec<String>) -> (r: Option<Vec<String>>)
    ensures
        r.deep_view() == strings_in(items.deep_view()),
{
    let ghost all = items.deep_view();
    let mut out: Vec<String> = Vec::new();
    let mut i: usize = 0;
    while i < items.len()
        invariant
            i <= items.len(),
            all == items.deep_view(),
            strings_in(all.take(i as int)) == Some(out.deep_view()),
        decreases items.len() - i,
    {
        assert(all.take(i + 1).drop_last() =~= all.take(i as int));
        match read_string(items[i].as_str()) {
            Some(s) => {
                let ghost prev = out.deep_view();
                let ghost sv = s@;
                out.push(s);
                assert(out.deep_view() =~= prev.push(sv));
                assert(all.take(i + 1).last() == all[i as int]);
            },
            None => {
                proof {
                    assert(all.take(i + 1).last() == all[i as int]);
                    proof_strings_none_extends(all, i + 1);
                }
                return None;
            },
        }
        i += 1;
    }
    assert(all.take(i as int) =~= all);
    Some(out)
}

/// Once a prefix of the texts holds a non-string, so does every longer prefix.
proof fn proof_strings_none_extends(all: Seq<Seq<char>>, n: int)
    requires
        0 <= n <= all.len(),
        strings_in(all.take(n)) is None,
    ensures
        strings_in(all) is None,
    decreases all.len() - n,
{
    if n < all.len() {
        assert(all.take(n + 1).drop_last() =~= all.take(n));
        proof_strings_none_extends(all, n + 1);
    } else {
        assert(all.take(n) =~= all);
    }
}

/// A list-of-strings member of a schema (see [`schema_text_list`]).
pub fn read_schema_text_list(members: &Vec<(String, String)>, key: &str) -> (r: Option<Vec<String>>)
    ensures
        r.deep_view() == schema_text_list(members.deep_view(), key@),
{
    match find_member(members, key) {
        Some(t) => match parse_json(t.as_str()) {
            Some(JsonValue::Array(items)) => read_strings(&items),
            _ => None,
        },
        None => Some(Vec::new()),
    }
}

} // verus!

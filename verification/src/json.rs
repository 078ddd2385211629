//! JSON text and values. String literals are written by serde_json, as the escaping rule
//! below states. The library lays out the small objects it reports with their keys in sorted
//! order, which is the order in which serde_json writes the maps of `serde_json::json!` when,
//! as here, its `preserve_order` feature is off.
use vstd::prelude::*;

use crate::text::concat;

verus! {

/// The lowercase hexadecimal digit for `d`, from 0 to 15.
pub open spec fn hex_digit(d: int) -> char {
    (if d < 10 {
        48 + d
    } else {
        87 + d
    }) as char
}

/// How serde_json writes one character inside a string literal: `"` and `\` are escaped,
/// backspace, form feed, line feed, carriage return and tab by their short escapes, the
/// other control characters below U+0020 as `\u00XX` with lowercase hexadecimal digits, and
/// every other character as itself.
pub open spec fn escape_char(c: char) -> Seq<char> {
    if c == '"' {
        seq!['\\', '"']
    } else if c == '\\' {
        seq!['\\', '\\']
    } else if c == '\u{8}' {
        seq!['\\', 'b']
    } else if c == '\u{c}' {
        seq!['\\', 'f']
    } else if c == '\n' {
        seq!['\\', 'n']
    } else if c == '\r' {
        seq!['\\', 'r']
    } else if c == '\t' {
        seq!['\\', 't']
    } else if (c as int) < 0x20 {
        seq!['\\', 'u', '0', '0', hex_digit((c as int) / 16), hex_digit((c as int) % 16)]
    } else {
        seq![c]
    }
}

/// The characters of `s`, each escaped as serde_json escapes it.
pub open spec fn escaped(s: Seq<char>) -> Seq<char>
    decreases s.len(),
{
    if s.len() == 0 {
        Seq::empty()
    } else {
        escaped(s.drop_last()) + escape_char(s.last())
    }
}

/// The JSON string literal that serde_json writes for the text `s`, quotes included.
pub open spec fn json_string_literal(s: Seq<char>) -> Seq<char> {
    seq!['"'] + escaped(s) + seq!['"']
}

/// Serialises `s` as a JSON string literal with `serde_json::to_string`. The contract claims
/// that the result is the literal that serde_json's escaping rule, stated above, gives for
/// `s`; serialising a `str` cannot fail, so the empty fallback is never taken.
#[verifier::external_body]
pub(crate) fn json_string(s: &str) -> (r: String)
    ensures
        r@ == json_string_literal(s@),
{
    serde_json::to_string(s).unwrap_or_default()
}

/// A JSON object with one member: `{"key":value}`, where `value` is already JSON text.
pub open spec fn member(key: Seq<char>, value: Seq<char>) -> Seq<char> {
    json_string_literal(key) + seq![':'] + value
}

/// `{"k1":v1,"k2":v2}`.
pub open spec fn object2(k1: Seq<char>, v1: Seq<char>, k2: Seq<char>, v2: Seq<char>) -> Seq<char> {
    seq!['{'] + member(k1, v1) + seq![','] + member(k2, v2) + seq!['}']
}

/// `{"k1":v1,"k2":v2,"k3":v3}`.
pub open spec fn object3(
    k1: Seq<char>,
    v1: Seq<char>,
    k2: Seq<char>,
    v2: Seq<char>,
    k3: Seq<char>,
    v3: Seq<char>,
) -> Seq<char> {
    seq!['{'] + member(k1, v1) + seq![','] + member(k2, v2) + seq![','] + member(k3, v3) + seq![
        '}',
    ]
}

pub(crate) fn member_text(key: &str, value: &str) -> (r: String)
    ensures
        r@ == member(key@, value@),
{
    let k = json_string(key);
    let kc = concat(k.as_str(), ":");
    let r = concat(kc.as_str(), value);
    proof { reveal_strlit(":"); }
    assert(r@ =~= member(key@, value@));
    r
}

/// Lays out `{"k1":v1,"k2":v2}` from keys and JSON values.
pub fn object2_text(k1: &str, v1: &str, k2: &str, v2: &str) -> (r: String)
    ensures
        r@ == object2(k1@, v1@, k2@, v2@),
{
    let m1 = member_text(k1, v1);
    let m2 = member_text(k2, v2);
    let a = concat("{", m1.as_str());
    let b = concat(a.as_str(), ",");
    let c = concat(b.as_str(), m2.as_str());
    let r = concat(c.as_str(), "}");
    proof {
        reveal_strlit("{");
        reveal_strlit(",");
        reveal_strlit("}");
    }
    assert(r@ =~= object2(k1@, v1@, k2@, v2@));
    r
}

/// Lays out `{"k1":v1,"k2":v2,"k3":v3}` from keys and JSON values.
pub fn object3_text(k1: &str, v1: &str, k2: &str, v2: &str, k3: &str, v3: &str) -> (r: String)
    ensures
        r@ == object3(k1@, v1@, k2@, v2@, k3@, v3@),
{
    let m1 = member_text(k1, v1);
    let m2 = member_text(k2, v2);
    let m3 = member_text(k3, v3);
    let a = concat("{", m1.as_str());
    let b = concat(a.as_str(), ",");
    let c = concat(b.as_str(), m2.as_str());
    let d = concat(c.as_str(), ",");
    let e = concat(d.as_str(), m3.as_str());
    let r = concat(e.as_str(), "}");
    proof {
        reveal_strlit("{");
        reveal_strlit(",");
        reveal_strlit("}");
    }
    assert(r@ =~= object3(k1@, v1@, k2@, v2@, k3@, v3@));
    r
}

} // verus!

verus! {

#[verifier::external_type_specification]
#[verifier::external_body]
pub struct ExJsonValue(serde_json::Value);

/// What `serde_json::from_str::<serde_json::Value>` reads from a text: the value, and whether
/// it is an object (`Value::is_object`), or the error's message.
pub uninterp spec fn json_parse(text: Seq<char>) -> Result<(serde_json::Value, bool), Seq<char>>;

/// Reads `text` as a JSON value with serde_json and tells whether it is an object. The
/// contract claims only that this is serde_json's answer for this text.
#[verifier::external_body]
pub(crate) fn parse_json(text: &str) -> (r: Result<(serde_json::Value, bool), String>)
    ensures
        match r {
            Ok((v, b)) => json_parse(text@) == Ok::<(serde_json::Value, bool), Seq<char>>((v, b)),
            Err(e) => json_parse(text@) == Err::<(serde_json::Value, bool), Seq<char>>(e@),
        },
{
    match serde_json::from_str::<serde_json::Value>(text) {
        Ok(value) => {
            let is_object = value.is_object();
            Ok((value, is_object))
        },
        Err(error) => Err(error.to_string()),
    }
}

/// The JSON string value `serde_json::Value::String` holding `s`.
pub uninterp spec fn json_string_value(s: Seq<char>) -> serde_json::Value;

/// Makes the JSON string value holding `s`.
#[verifier::external_body]
pub(crate) fn string_value(s: String) -> (r: serde_json::Value)
    ensures
        r == json_string_value(s@),
{
    serde_json::Value::String(s)
}

/// The JSON object `serde_json::Value::Object` that collecting these members into a
/// `serde_json::Map` gives (a later member replaces an earlier one with the same key).
pub uninterp spec fn json_object_value(members: Seq<(Seq<char>, serde_json::Value)>) -> serde_json::Value;

/// The members of an object under construction, with their keys as text.
pub open spec fn members_view(members: Seq<(String, serde_json::Value)>) -> Seq<(Seq<char>, serde_json::Value)> {
    members.map_values(|m: (String, serde_json::Value)| (m.0@, m.1))
}

/// Collects members into a JSON object.
#[verifier::external_body]
pub(crate) fn object_value(members: Vec<(String, serde_json::Value)>) -> (r: serde_json::Value)
    ensures
        r == json_object_value(members_view(members@)),
{
    serde_json::Value::Object(members.into_iter().collect())
}

} // verus!

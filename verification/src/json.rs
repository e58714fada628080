//! JSON documents, as read by `serde_json` and held in a shape of the
//! library's own.

use vstd::prelude::*;

verus! {

/// A JSON value.
#[derive(Debug, PartialEq, Eq)]
pub enum JsonValue {
    Null,
    Bool(bool),
    /// A number, by its decimal text.
    Number(String),
    Text(String),
    Array(Vec<JsonValue>),
    /// The members of an object, in order. Where a key stands more than once
    /// the first member that has it is the one read.
    Object(Vec<JsonMember>),
}

/// One member of a JSON object.
#[derive(Debug, PartialEq, Eq)]
pub struct JsonMember {
    pub key: String,
    pub value: JsonValue,
}

/// `serde_json::Value`, which the library only hands from the parser to the
/// conversion and never looks into.
#[verifier::external_type_specification]
#[verifier::external_body]
pub struct ExValue(serde_json::Value);

/// The document that `serde_json` reads from a text: the value that
/// `serde_json::from_str` gives for it, variant by variant in the shape of
/// [`JsonValue`], or nothing where the text is not one JSON value.
///
/// The parser keeps one member for each key of an object: where the text
/// repeats a key, the member holds the value that stands last.
pub uninterp spec fn json_document(text: Seq<char>) -> Option<JsonValue>;

/// Trusted: tells the variants of `serde_json::Value` apart and moves what
/// each holds into the same variant of [`JsonValue`], a number by the text
/// that its `Display` writes. Nothing is claimed of the result.
#[verifier::external_body]
fn convert(value: serde_json::Value) -> JsonValue {
    match value {
        serde_json::Value::Null => JsonValue::Null,
        serde_json::Value::Bool(flag) => JsonValue::Bool(flag),
        serde_json::Value::Number(number) => JsonValue::Number(number.to_string()),
        serde_json::Value::String(text) => JsonValue::Text(text),
        serde_json::Value::Array(items) => JsonValue::Array(items.into_iter().map(convert).collect()),
        serde_json::Value::Object(map) => JsonValue::Object(
            map.into_iter().map(|(key, value)| JsonMember { key, value: convert(value) }).collect(),
        ),
    }
}

/// Trusted: calls `serde_json::from_str` for a `serde_json::Value`. The
/// contract claims that the answer depends on the text alone, and names it;
/// it says nothing of which texts are documents. An error of the parser is
/// answered with nothing: its message is not read.
#[verifier::external_body]
pub(crate) fn parse_document(text: &str) -> (document: Option<JsonValue>)
    ensures
        document == json_document(text@),
{
    match serde_json::from_str::<serde_json::Value>(text) {
        Ok(value) => Some(convert(value)),
        Err(_) => None,
    }
}

/// The value of the first member with the key `key`.
pub open spec fn member_value(members: Seq<JsonMember>, key: Seq<char>) -> Option<JsonValue>
    decreases members.len(),
{
    if members.len() == 0 {
        None
    } else if members.first().key@ == key {
        Some(members.first().value)
    } else {
        member_value(members.drop_first(), key)
    }
}

/// The text of the member `key`, where there is such a member and its value
/// is a string.
pub open spec fn text_member(members: Seq<JsonMember>, key: Seq<char>) -> Option<Seq<char>> {
    match member_value(members, key) {
        Some(JsonValue::Text(text)) => Some(text@),
        _ => None,
    }
}

/// The value of the first member of `members` with the key `key`.
pub fn find_member<'a>(members: &'a Vec<JsonMember>, key: &str) -> (value: Option<&'a JsonValue>)
    ensures
        match value {
            Some(found) => member_value(members@, key@) == Some(*found),
            None => member_value(members@, key@) is None,
        },
{
    let wanted = key.to_owned();
    let mut i: usize = 0;
    proof {
        assert(members@.skip(0) =~= members@);
    }
    while i < members.len()
        invariant
            i <= members.len(),
            wanted@ == key@,
            member_value(members@, key@) == member_value(members@.skip(i as int), key@),
        decreases members.len() - i,
    {
        proof {
            assert(members@.skip(i as int).first() == members@[i as int]);
            assert(members@.skip(i as int).drop_first() =~= members@.skip(i + 1));
        }
        if members[i].key == wanted {
            return Some(&members[i].value);
        }
        i = i + 1;
    }
    None
}

/// The text of the member `key` of `members`, where it is a string.
pub fn find_text<'a>(members: &'a Vec<JsonMember>, key: &str) -> (text: Option<&'a String>)
    ensures
        match text {
            Some(found) => text_member(members@, key@) == Some(found@),
            None => text_member(members@, key@) is None,
        },
{
    match find_member(members, key) {
        Some(JsonValue::Text(text)) => Some(text),
        _ => None,
    }
}

} // verus!

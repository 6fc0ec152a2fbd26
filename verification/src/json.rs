//! The values of a JSON text, as plain data, and the call that reads them.

use vstd::prelude::*;
use crate::text::same_text;

verus! {

/// A number of a JSON text: a whole number that is not negative, a negative
/// whole number, or another number, kept as the text that displays it.
#[derive(Debug)]
pub enum JsonNumber {
    Unsigned(u64),
    Negative(i64),
    Other(String),
}

/// One value of a JSON text.
#[derive(Debug)]
pub enum JsonValue {
    Null,
    Boolean(bool),
    Number(JsonNumber),
    Text(String),
    Array(Vec<JsonValue>),
    Object(Vec<JsonMember>),
}

/// A key of an object with its value.
#[derive(Debug)]
pub struct JsonMember {
    pub key: String,
    pub value: JsonValue,
}

#[verifier::external_type_specification]
#[verifier::external_body]
pub struct ExJsonValue(serde_json::Value);

#[verifier::external_type_specification]
#[verifier::external_body]
pub struct ExJsonNumber(serde_json::Number);

#[verifier::external_type_specification]
#[verifier::external_body]
#[verifier::reject_recursive_types(K)]
#[verifier::reject_recursive_types(V)]
pub struct ExJsonMap<K, V>(serde_json::Map<K, V>);

/// The value that `serde_json` reads from a text; `None` where the text is no
/// JSON.
pub uninterp spec fn json_document(text: Seq<char>) -> Option<JsonValue>;

/// Copies a number of `serde_json`: what `as_u64` gives, else what `as_i64`
/// gives, else the number as displayed.
#[verifier::external_body]
pub(crate) fn number_from(n: &serde_json::Number) -> JsonNumber {
    match (n.as_u64(), n.as_i64()) {
        (Some(u), _) => JsonNumber::Unsigned(u),
        (None, Some(i)) => JsonNumber::Negative(i),
        (None, None) => JsonNumber::Other(n.to_string()),
    }
}

/// Copies the members of an object of `serde_json`, in the order of
/// `Map::iter`.
#[verifier::external_body]
pub(crate) fn members_from(m: &serde_json::Map<String, serde_json::Value>) -> Vec<JsonMember> {
    m.iter().map(|(k, v)| JsonMember { key: k.clone(), value: json_from(v) }).collect()
}

/// Copies a value of `serde_json` into a `JsonValue`, variant by variant.
#[verifier::external_body]
pub(crate) fn json_from(v: &serde_json::Value) -> JsonValue {
    match v {
        serde_json::Value::Null => JsonValue::Null,
        serde_json::Value::Bool(b) => JsonValue::Boolean(*b),
        serde_json::Value::Number(n) => JsonValue::Number(number_from(n)),
        serde_json::Value::String(s) => JsonValue::Text(s.clone()),
        serde_json::Value::Array(a) => JsonValue::Array(a.iter().map(json_from).collect()),
        serde_json::Value::Object(m) => JsonValue::Object(members_from(m)),
    }
}

/// `serde_json::from_str` for a value. The result is named by
/// `json_document`.
#[verifier::external_body]
pub(crate) fn read_json(text: &str) -> (r: Option<JsonValue>)
    ensures
        r == json_document(text@),
{
    match serde_json::from_str::<serde_json::Value>(text) {
        Ok(v) => Some(json_from(&v)),
        Err(_) => None,
    }
}

/// Reads a JSON text.
pub fn parse_json(text: &str) -> (r: Option<JsonValue>)
    ensures
        r == json_document(text@),
{
    read_json(text)
}

/// The value of the first member with the given key.
pub open spec fn member_value(members: Seq<JsonMember>, key: Seq<char>) -> Option<JsonValue>
    decreases members.len(),
{
    if members.len() == 0 {
        None
    } else if members[0].key@ == key {
        Some(members[0].value)
    } else {
        member_value(members.drop_first(), key)
    }
}

/// The member of an object under a key; none for a value that is no object.
pub open spec fn member_of(value: JsonValue, key: Seq<char>) -> Option<JsonValue> {
    match value {
        JsonValue::Object(members) => member_value(members@, key),
        _ => None,
    }
}

/// The member under a key of a value that may be missing.
pub open spec fn member_in(value: Option<JsonValue>, key: Seq<char>) -> Option<JsonValue> {
    match value {
        Some(v) => member_of(v, key),
        None => None,
    }
}

/// The first item of a value that is an array with an item.
pub open spec fn first_item(value: Option<JsonValue>) -> Option<JsonValue> {
    match value {
        Some(JsonValue::Array(items)) => if items@.len() > 0 {
            Some(items@[0])
        } else {
            None
        },
        _ => None,
    }
}

/// The text of a value that is a text.
pub open spec fn text_value(value: Option<JsonValue>) -> Option<Seq<char>> {
    match value {
        Some(JsonValue::Text(s)) => Some(s@),
        _ => None,
    }
}

/// The number of a value that is a whole number and not negative.
pub open spec fn unsigned_value(value: Option<JsonValue>) -> Option<u64> {
    match value {
        Some(JsonValue::Number(JsonNumber::Unsigned(n))) => Some(n),
        _ => None,
    }
}

/// The items of a value that is an array.
pub open spec fn items_of(value: Option<JsonValue>) -> Option<Seq<JsonValue>> {
    match value {
        Some(JsonValue::Array(items)) => Some(items@),
        _ => None,
    }
}

/// Whether an optional reference stands for an optional value.
pub open spec fn refers_to(r: Option<&JsonValue>, v: Option<JsonValue>) -> bool {
    match (r, v) {
        (Some(a), Some(b)) => *a == b,
        (None, None) => true,
        _ => false,
    }
}

/// The value of the first member with the given key.
pub fn find_member<'a>(members: &'a Vec<JsonMember>, key: &str) -> (r: Option<&'a JsonValue>)
    ensures
        refers_to(r, member_value(members@, key@)),
{
    let mut i: usize = 0;
    assert(members@.subrange(0, members.len() as int) =~= members@);
    while i < members.len()
        invariant
            i <= members.len(),
            member_value(members@, key@) == member_value(
                members@.subrange(i as int, members.len() as int),
                key@,
            ),
        decreases members.len() - i,
    {
        if same_text(members[i].key.as_str(), key) {
            return Some(&members[i].value);
        }
        assert(members@.subrange(i as int, members.len() as int).drop_first()
            =~= members@.subrange(i + 1, members.len() as int));
        i += 1;
    }
    None
}

/// The member of an object under a key.
pub fn get_member<'a>(value: Option<&'a JsonValue>, key: &str) -> (r: Option<&'a JsonValue>)
    ensures
        refers_to(
            r,
            member_in(
                match value {
                    Some(v) => Some(*v),
                    None => None,
                },
                key@,
            ),
        ),
{
    match value {
        Some(JsonValue::Object(members)) => find_member(members, key),
        _ => None,
    }
}

/// The first item of an array.
pub fn get_first<'a>(value: Option<&'a JsonValue>) -> (r: Option<&'a JsonValue>)
    ensures
        refers_to(
            r,
            first_item(
                match value {
                    Some(v) => Some(*v),
                    None => None,
                },
            ),
        ),
{
    match value {
        Some(JsonValue::Array(items)) => if items.len() > 0 {
            Some(&items[0])
        } else {
            None
        },
        _ => None,
    }
}

/// The text of a value that is a text.
pub fn get_text(value: Option<&JsonValue>) -> (r: Option<String>)
    ensures
        r.deep_view() == text_value(
            match value {
                Some(v) => Some(*v),
                None => None,
            },
        ),
{
    match value {
        Some(JsonValue::Text(s)) => Some(s.clone()),
        _ => None,
    }
}

/// The number of a value that is a whole number and not negative.
pub fn get_unsigned(value: Option<&JsonValue>) -> (r: Option<u64>)
    ensures
        r == unsigned_value(
            match value {
                Some(v) => Some(*v),
                None => None,
            },
        ),
{
    match value {
        Some(JsonValue::Number(JsonNumber::Unsigned(n))) => Some(*n),
        _ => None,
    }
}

/// The items of a value that is an array.
pub fn get_items<'a>(value: Option<&'a JsonValue>) -> (r: Option<&'a Vec<JsonValue>>)
    ensures
        match (
            r,
            items_of(
                match value {
                    Some(v) => Some(*v),
                    None => None,
                },
            ),
        ) {
            (Some(a), Some(b)) => a@ == b,
            (None, None) => true,
            _ => false,
        },
{
    match value {
        Some(JsonValue::Array(items)) => Some(items),
        _ => None,
    }
}

} // verus!

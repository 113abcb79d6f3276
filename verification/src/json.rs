//! JSON documents: the mathematical model of a `serde_json::Value`, and the
//! handful of operations on such values that the package mutation needs.

use crate::text::strings_view;
use vstd::prelude::*;

verus! {

/// A JSON number as `serde_json` holds it.
pub enum JsonNumber {
    /// A non-negative integer.
    PosInt(nat),
    /// A negative integer.
    NegInt(int),
    /// A number that is no integer, by its bit pattern.
    Float(nat),
}

/// The mathematical value of a JSON document.
pub enum JsonValue {
    Null,
    Bool(bool),
    Number(JsonNumber),
    Text(Seq<char>),
    Array(Seq<JsonValue>),
    Object(Map<Seq<char>, JsonValue>),
}

impl JsonValue {
    /// The members of an object; no members for any other value.
    pub open spec fn members(self) -> Map<Seq<char>, JsonValue> {
        match self {
            JsonValue::Object(m) => m,
            _ => Map::empty(),
        }
    }
}

#[verifier::external_type_specification]
#[verifier::external_body]
pub struct ExJsonDocument(serde_json::Value);

#[verifier::external_type_specification]
#[verifier::external_body]
pub struct ExJsonFailure(serde_json::Error);

/// The document that a `serde_json::Value` holds.
pub uninterp spec fn value_view(v: serde_json::Value) -> JsonValue;

/// The document that `serde_json::from_str` reads from a text, if it reads
/// one.
pub uninterp spec fn json_parse(text: Seq<char>) -> Option<JsonValue>;

/// The text that `serde_json::to_string_pretty` writes for a document, if it
/// writes one.
pub uninterp spec fn json_pretty(doc: JsonValue) -> Option<Seq<char>>;

/// The text that `serde_json::to_string` writes for a list of strings.
pub uninterp spec fn json_string_list(items: Seq<Seq<char>>) -> Seq<char>;

/// The documents that the values of a list hold, in order.
pub open spec fn values_view(items: Seq<serde_json::Value>) -> Seq<JsonValue> {
    Seq::new(items.len(), |i: int| value_view(items[i]))
}

/// Calls `serde_json::from_str` for a `Value`. The contract names the
/// outcome: the value read holds the document that the text stands for, and
/// an error comes exactly where the text stands for none.
#[verifier::external_body]
pub(crate) fn parse_document(content: &str) -> (r: Result<serde_json::Value, serde_json::Error>)
    ensures
        match r {
            Ok(v) => json_parse(content@) == Some(value_view(v)),
            Err(_) => json_parse(content@).is_none(),
        },
{
    serde_json::from_str::<serde_json::Value>(content)
}

/// Calls `serde_json::to_string_pretty` on a `Value`. The contract names
/// the outcome: the text written is the pretty form of the document, and an
/// error comes exactly where the document has none.
#[verifier::external_body]
pub(crate) fn render_document(doc: &serde_json::Value) -> (r: Result<String, serde_json::Error>)
    ensures
        match r {
            Ok(text) => json_pretty(value_view(*doc)) == Some(text@),
            Err(_) => json_pretty(value_view(*doc)).is_none(),
        },
{
    serde_json::to_string_pretty(doc)
}

/// Calls `serde_json::to_string` on a list of strings and names the text it
/// writes. The documentation gives two causes of failure, a `Serialize` impl
/// that fails and a map with keys that are no strings; a list of strings has
/// neither, and the empty text would stand for such a failure.
#[verifier::external_body]
pub(crate) fn encode_string_list(items: &Vec<String>) -> (r: String)
    ensures
        r@ == json_string_list(strings_view(items@)),
{
    serde_json::to_string(items).unwrap_or_default()
}

/// Formats a `serde_json::Error` through its `Display` impl. Nothing is
/// claimed of the text.
#[verifier::external_body]
pub(crate) fn failure_text(failure: &serde_json::Error) -> (r: String) {
    failure.to_string()
}

/// Calls `Value::is_object`: true exactly for an object.
#[verifier::external_body]
pub(crate) fn value_is_object(v: &serde_json::Value) -> (r: bool)
    ensures
        r == (value_view(*v) is Object),
{
    v.is_object()
}

/// Calls `Value::is_null`: true exactly for null.
#[verifier::external_body]
pub(crate) fn value_is_null(v: &serde_json::Value) -> (r: bool)
    ensures
        r == (value_view(*v) is Null),
{
    v.is_null()
}

/// Calls `Map::remove` on the map of an object, reached through
/// `Value::as_object_mut`. The key leaves the object, and the value that
/// stood under it is returned, if there was one.
#[verifier::external_body]
pub(crate) fn take_member(v: &mut serde_json::Value, key: &str) -> (r: Option<serde_json::Value>)
    requires
        value_view(*old(v)) is Object,
    ensures
        value_view(*final(v)) == JsonValue::Object(value_view(*old(v)).members().remove(key@)),
        match r {
            Some(member) => value_view(*old(v)).members().contains_key(key@) && value_view(member)
                == value_view(*old(v)).members()[key@],
            None => !value_view(*old(v)).members().contains_key(key@),
        },
{
    v.as_object_mut().and_then(|members| members.remove(key))
}

/// Calls `Map::insert` on the map of an object, reached through
/// `Value::as_object_mut`. The member stands under the key afterwards,
/// whether or not the key was present; the other members stay.
#[verifier::external_body]
pub(crate) fn put_member(v: &mut serde_json::Value, key: &str, member: serde_json::Value)
    requires
        value_view(*old(v)) is Object,
    ensures
        value_view(*final(v)) == JsonValue::Object(
            value_view(*old(v)).members().insert(key@, value_view(member)),
        ),
{
    v.as_object_mut().and_then(|members| members.insert(key.to_owned(), member));
}

/// Builds `Value::String` from a string slice.
#[verifier::external_body]
pub(crate) fn text_value(text: &str) -> (r: serde_json::Value)
    ensures
        value_view(r) == JsonValue::Text(text@),
{
    serde_json::Value::String(text.to_owned())
}

/// Builds `Value::Bool`.
#[verifier::external_body]
pub(crate) fn bool_value(flag: bool) -> (r: serde_json::Value)
    ensures
        value_view(r) == JsonValue::Bool(flag),
{
    serde_json::Value::Bool(flag)
}

/// Calls `Value::from` on a `u32`, which holds it as a non-negative integer.
#[verifier::external_body]
pub(crate) fn number_value(n: u32) -> (r: serde_json::Value)
    ensures
        value_view(r) == JsonValue::Number(JsonNumber::PosInt(n as nat)),
{
    serde_json::Value::from(n)
}

/// Builds `Value::Object` around `Map::new`, an object without members.
#[verifier::external_body]
pub(crate) fn empty_object() -> (r: serde_json::Value)
    ensures
        value_view(r) == JsonValue::Object(Map::empty()),
{
    serde_json::Value::Object(serde_json::Map::new())
}

/// Builds `Value::Array` from the values given, in their order.
#[verifier::external_body]
pub(crate) fn array_value(items: Vec<serde_json::Value>) -> (r: serde_json::Value)
    ensures
        value_view(r) == JsonValue::Array(values_view(items@)),
{
    serde_json::Value::Array(items)
}

} // verus!

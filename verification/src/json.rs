//! JSON documents.
//!
//! A document is a `serde_json::Value`. Verus does not see inside one, so the
//! library speaks of a document through its content, [`Json`], and reaches
//! it only through the functions below, one call of `serde_json` each.

use vstd::prelude::*;

verus! {

/// The content of a JSON document.
pub enum Json {
    Null,
    Bool(bool),
    /// An integer that fits in 64 bits, signed or unsigned.
    Integer(int),
    /// Any other number, by the digits that it prints as.
    Decimal(Seq<char>),
    Text(Seq<char>),
    Array(Seq<Json>),
    /// An object: its members by name.
    Object(Map<Seq<char>, Json>),
}

impl Json {
    /// The member of that name, where this is an object that has one.
    pub open spec fn member(self, name: Seq<char>) -> Option<Json> {
        match self {
            Json::Object(members) => if members.contains_key(name) {
                Some(members[name])
            } else {
                None
            },
            _ => None,
        }
    }

    /// The value as a signed 64-bit integer, where it is one.
    pub open spec fn as_integer(self) -> Option<i64> {
        match self {
            Json::Integer(n) => if i64::MIN <= n <= i64::MAX {
                Some(n as i64)
            } else {
                None
            },
            _ => None,
        }
    }
}

/// Makes `serde_json::Value` known to Verus, as a type without visible parts.
#[verifier::external_type_specification]
#[verifier::external_body]
pub struct ExValue(serde_json::Value);

/// The content of a document.
pub uninterp spec fn json_content(value: serde_json::Value) -> Json;

/// What `serde_json::from_str` makes of a text: the content of the document,
/// or the parser's message where the text is no JSON.
pub uninterp spec fn json_parsing(text: Seq<char>) -> Result<Json, Seq<char>>;

/// The text that `serde_json::to_string` writes for a document.
pub uninterp spec fn json_rendering(document: Json) -> Seq<char>;

/// Calls `serde_json::from_str`. Trusted: the outcome is the named parsing of
/// the text, the error given by its text.
#[verifier::external_body]
pub(crate) fn parse(text: &str) -> (r: Result<serde_json::Value, String>)
    ensures
        match r {
            Ok(value) => json_parsing(text@) == Ok::<Json, Seq<char>>(json_content(value)),
            Err(message) => json_parsing(text@) == Err::<Json, Seq<char>>(message@),
        },
{
    match serde_json::from_str::<serde_json::Value>(text) {
        Ok(value) => Ok(value),
        Err(err) => Err(err.to_string()),
    }
}

/// Calls `serde_json::to_string`, which does not fail on a document (its
/// names are strings and its numbers finite). Trusted: the result is the named
/// rendering of the document's content.
#[verifier::external_body]
pub(crate) fn render(value: &serde_json::Value) -> (text: String)
    ensures
        text@ == json_rendering(json_content(*value)),
{
    serde_json::to_string(value).unwrap_or_default()
}

/// Calls `Value::get` with a name. Trusted: the member of that name where
/// the document is an object that has one, `None` otherwise.
#[verifier::external_body]
pub(crate) fn member<'a>(value: &'a serde_json::Value, name: &str) -> (r: Option<&'a serde_json::Value>)
    ensures
        match r {
            Some(found) => json_content(*value).member(name@) == Some(json_content(*found)),
            None => json_content(*value).member(name@) is None,
        },
{
    value.get(name)
}

/// Calls `Value::as_i64`. Trusted: the integer where the document is an
/// integer that fits, `None` otherwise.
#[verifier::external_body]
pub(crate) fn as_integer(value: &serde_json::Value) -> (r: Option<i64>)
    ensures
        r == json_content(*value).as_integer(),
{
    value.as_i64()
}

/// Calls `Value::is_string`. Trusted: true of a string and of nothing else.
#[verifier::external_body]
pub(crate) fn is_text(value: &serde_json::Value) -> (b: bool)
    ensures
        b == (json_content(*value) is Text),
{
    value.is_string()
}

/// Calls `Value::is_object`. Trusted: true of an object and of nothing else.
#[verifier::external_body]
pub(crate) fn is_object(value: &serde_json::Value) -> (b: bool)
    ensures
        b == (json_content(*value) is Object),
{
    value.is_object()
}

/// Calls `Value::clone`. Trusted: the copy has the same content.
#[verifier::external_body]
pub(crate) fn copy(value: &serde_json::Value) -> (r: serde_json::Value)
    ensures
        json_content(r) == json_content(*value),
{
    value.clone()
}

/// Makes `Value::Object` of `Map::new()`: an object without members.
#[verifier::external_body]
pub(crate) fn empty_object() -> (r: serde_json::Value)
    ensures
        json_content(r) == Json::Object(Map::empty()),
{
    serde_json::Value::Object(serde_json::Map::new())
}

/// Makes `Value::String` of a text.
#[verifier::external_body]
pub(crate) fn text_value(text: &str) -> (r: serde_json::Value)
    ensures
        json_content(r) == Json::Text(text@),
{
    serde_json::Value::String(text.to_owned())
}

/// Assigns through `Value::index_mut` with a name, which panics on anything
/// but an object or null. Trusted: on an object the member of that name is
/// added or replaced, and every other member stays.
#[verifier::external_body]
pub(crate) fn set_member(value: &mut serde_json::Value, name: &str, member: serde_json::Value)
    requires
        json_content(*old(value)) is Object,
    ensures
        json_content(*final(value)) == Json::Object(
            json_content(*old(value))->Object_0.insert(name@, json_content(member)),
        ),
{
    value[name] = member;
}

} // verus!

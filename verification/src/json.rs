//! JSON values. They are `serde_json::Value`s, built, read, parsed and written
//! by `serde_json`; this module says what each of those operations does in
//! terms of a mathematical model of the value, [`Json`].
//!
//! Nothing in this module is proved: every function here is a boundary to
//! `serde_json`, and its contract is a statement about that crate.

use vstd::prelude::*;

verus! {

/// The mathematical model of a JSON value.
///
/// An object is a map from member names to values, so it has no order and no
/// repeated names. A number is modelled by the integer it holds; the contracts
/// of this crate say nothing of numbers that are not integers.
pub enum Json {
    Null,
    Bool(bool),
    Number(int),
    Text(Seq<char>),
    Array(Seq<Json>),
    Object(Map<Seq<char>, Json>),
}

impl Json {
    /// Whether this is an object with a member called `name`.
    pub open spec fn has(self, name: Seq<char>) -> bool {
        self is Object && self->Object_0.contains_key(name)
    }

    /// The member called `name` of an object.
    pub open spec fn member(self, name: Seq<char>) -> Json
        recommends
            self.has(name),
    {
        self->Object_0[name]
    }

    /// An object with the member `name` set to `value`; the other members stay.
    pub open spec fn with(self, name: Seq<char>, value: Json) -> Json
        recommends
            self is Object,
    {
        Json::Object(self->Object_0.insert(name, value))
    }

    /// As [`Json::with`] where a value is given, unchanged where none is.
    pub open spec fn with_optional(self, name: Seq<char>, value: Option<Json>) -> Json
        recommends
            self is Object,
    {
        match value {
            Some(v) => self.with(name, v),
            None => self,
        }
    }

    /// The object without members.
    pub open spec fn empty_object() -> Json {
        Json::Object(Map::empty())
    }
}

/// `serde_json::Value`, the JSON value that this crate carries around.
#[verifier::external_type_specification]
#[verifier::external_body]
pub struct ExValue(serde_json::Value);

/// `serde_json::Error`, returned by the parser for text that is not JSON.
#[verifier::external_type_specification]
#[verifier::external_body]
pub struct ExError(serde_json::Error);

/// What a `serde_json::Value` holds.
pub uninterp spec fn json_of(value: serde_json::Value) -> Json;

/// The compact JSON text that `serde_json` writes for a value.
pub uninterp spec fn text_of(value: serde_json::Value) -> Seq<char>;

/// The value that `serde_json` reads from a byte string, if the bytes are
/// one JSON document.
pub uninterp spec fn parsed(bytes: Seq<u8>) -> Option<serde_json::Value>;

/// `serde_json::Map::new`, wrapped in `Value::Object`: an object without
/// members.
#[verifier::external_body]
pub(crate) fn object() -> (value: serde_json::Value)
    ensures
        json_of(value) == Json::empty_object(),
{
    serde_json::Value::Object(serde_json::Map::new())
}

/// `serde_json::Value`'s `IndexMut<&str>`, assigned to. On an object it adds
/// the member `name`, or replaces it where the object has one already, and
/// leaves the other members as they are. (On a value that is neither an
/// object nor null it panics, hence the precondition.)
#[verifier::external_body]
pub(crate) fn set(object: &mut serde_json::Value, name: &str, value: serde_json::Value)
    requires
        json_of(*old(object)) is Object,
    ensures
        json_of(*final(object)) == json_of(*old(object)).with(name@, json_of(value)),
{
    object[name] = value;
}

/// `From<String> for serde_json::Value`: the JSON string with the same
/// characters.
#[verifier::external_body]
pub(crate) fn text(s: String) -> (value: serde_json::Value)
    ensures
        json_of(value) == Json::Text(s@),
{
    serde_json::Value::from(s)
}

/// `From<bool> for serde_json::Value`: the JSON boolean.
#[verifier::external_body]
pub(crate) fn boolean(b: bool) -> (value: serde_json::Value)
    ensures
        json_of(value) == Json::Bool(b),
{
    serde_json::Value::from(b)
}

/// `From<u32> for serde_json::Value`: the JSON number that holds `n`.
#[verifier::external_body]
pub(crate) fn number(n: u32) -> (value: serde_json::Value)
    ensures
        json_of(value) == Json::Number(n as int),
{
    serde_json::Value::from(n)
}

/// `From<Vec<Value>> for serde_json::Value`: the JSON array of the items, in
/// their order.
#[verifier::external_body]
pub(crate) fn array(items: Vec<serde_json::Value>) -> (value: serde_json::Value)
    ensures
        json_of(value) == Json::Array(items@.map_values(|item: serde_json::Value| json_of(item))),
{
    serde_json::Value::from(items)
}

/// `serde_json::Value::get` with a string index: the member `name` where the
/// value is an object that has one, nothing otherwise.
#[verifier::external_body]
pub(crate) fn get<'a>(value: &'a serde_json::Value, name: &str) -> (member: Option<
    &'a serde_json::Value,
>)
    ensures
        member is Some <==> json_of(*value).has(name@),
        member matches Some(m) ==> json_of(*m) == json_of(*value).member(name@),
{
    value.get(name)
}

/// `serde_json::Value::as_str`: the characters of a JSON string, nothing for
/// any other value.
#[verifier::external_body]
pub(crate) fn as_str<'a>(value: &'a serde_json::Value) -> (s: Option<&'a str>)
    ensures
        s is Some <==> json_of(*value) is Text,
        s matches Some(t) ==> t@ == json_of(*value)->Text_0,
{
    value.as_str()
}

/// `serde_json::Value::as_bool`: the truth value of a JSON boolean, nothing
/// for any other value.
#[verifier::external_body]
pub(crate) fn as_bool(value: &serde_json::Value) -> (b: Option<bool>)
    ensures
        b is Some <==> json_of(*value) is Bool,
        b matches Some(t) ==> t == json_of(*value)->Bool_0,
{
    value.as_bool()
}

/// `serde_json::Value`'s `Display`, through `to_string`: the compact JSON
/// text of the value.
#[verifier::external_body]
pub(crate) fn write(value: &serde_json::Value) -> (s: String)
    ensures
        s@ == text_of(*value),
{
    value.to_string()
}

/// `serde_json::from_slice` at type `Value`: the value that the bytes spell,
/// or an error where they are not exactly one JSON document.
#[verifier::external_body]
pub(crate) fn parse(bytes: &[u8]) -> (outcome: Result<serde_json::Value, serde_json::Error>)
    ensures
        outcome matches Ok(value) ==> parsed(bytes@) == Some(value),
        outcome is Err ==> parsed(bytes@) is None,
{
    serde_json::from_slice(bytes)
}

} // verus!

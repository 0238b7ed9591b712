//! JSON documents as `serde_json` reads them.
//!
//! A parsed document is a `serde_json::Value`. The verifier does not look
//! inside one: what it holds is named by `json_of`, and each accessor below
//! says over that name what the accessor of `serde_json` returns.

use vstd::prelude::*;

verus! {

/// `serde_json::Value`, a parsed JSON document; nothing is known of what is
/// inside one but through `json_of`.
#[verifier::external_type_specification]
#[verifier::external_body]
pub struct ExValue(serde_json::Value);

/// `serde_json::Error`, why bytes could not be parsed; only carried through.
#[verifier::external_type_specification]
#[verifier::external_body]
pub struct ExJsonError(serde_json::Error);

/// A JSON document, to specifications.
pub enum Json {
    Null,
    Bool(bool),
    /// A number; the field is the number as an unsigned 64-bit integer,
    /// where it is one.
    Number(Option<u64>),
    Text(Seq<char>),
    Array(Seq<Json>),
    Object(Map<Seq<char>, Json>),
}

impl Json {
    /// The member `key` of an object.
    pub open spec fn member(self, key: Seq<char>) -> Option<Json> {
        match self {
            Json::Object(m) => if m.contains_key(key) {
                Some(m[key])
            } else {
                None
            },
            _ => None,
        }
    }

    /// The elements of an array.
    pub open spec fn elements(self) -> Option<Seq<Json>> {
        match self {
            Json::Array(s) => Some(s),
            _ => None,
        }
    }

    /// The characters of a string.
    pub open spec fn text(self) -> Option<Seq<char>> {
        match self {
            Json::Text(s) => Some(s),
            _ => None,
        }
    }

    /// A number that is an unsigned 64-bit integer.
    pub open spec fn unsigned(self) -> Option<u64> {
        match self {
            Json::Number(n) => n,
            _ => None,
        }
    }

    /// A boolean.
    pub open spec fn boolean(self) -> Option<bool> {
        match self {
            Json::Bool(b) => Some(b),
            _ => None,
        }
    }

    /// The text of the member `key`, if there is such a member and it is a
    /// string.
    pub open spec fn member_text(self, key: Seq<char>) -> Option<Seq<char>> {
        match self.member(key) {
            Some(v) => v.text(),
            None => None,
        }
    }

    /// Whether there is a member `key` that is not `null`.
    pub open spec fn has_value(self, key: Seq<char>) -> bool {
        match self.member(key) {
            Some(v) => !(v is Null),
            None => false,
        }
    }

    /// The elements of the member `key`, if there is such a member and it
    /// is an array; no elements otherwise.
    pub open spec fn children(self, key: Seq<char>) -> Seq<Json> {
        match self.member(key) {
            Some(Json::Array(s)) => s,
            _ => Seq::empty(),
        }
    }
}

/// What a parsed document holds.
pub uninterp spec fn json_of(value: serde_json::Value) -> Json;

/// The document that bytes are parsed to, if they are one JSON text.
pub uninterp spec fn parsed(bytes: Seq<u8>) -> Option<Json>;

/// The documents that a vector of values holds.
pub open spec fn jsons(values: Seq<serde_json::Value>) -> Seq<Json> {
    values.map_values(|v: serde_json::Value| json_of(v))
}

/// `serde_json::from_slice` at the type `Value`: whether the bytes parse as
/// one JSON text is a function of the bytes, and so is the document.
#[verifier::external_body]
pub(crate) fn parse(bytes: &Vec<u8>) -> (r: Result<serde_json::Value, serde_json::Error>)
    ensures
        match r {
            Ok(v) => parsed(bytes@) == Some(json_of(v)),
            Err(_) => parsed(bytes@) is None,
        },
{
    serde_json::from_slice(bytes)
}

/// `Value::get` with a string index: the member of that name if the value
/// is an object that has one, and nothing in every other case.
#[verifier::external_body]
pub(crate) fn member<'a>(value: &'a serde_json::Value, key: &str) -> (r: Option<
    &'a serde_json::Value,
>)
    ensures
        match r {
            Some(v) => json_of(*value).member(key@) == Some(json_of(*v)),
            None => json_of(*value).member(key@) is None,
        },
{
    value.get(key)
}

/// `Value::as_array`: the elements if the value is an array.
#[verifier::external_body]
pub(crate) fn elements<'a>(value: &'a serde_json::Value) -> (r: Option<&'a Vec<serde_json::Value>>)
    ensures
        match r {
            Some(v) => json_of(*value).elements() == Some(jsons(v@)),
            None => json_of(*value).elements() is None,
        },
{
    value.as_array()
}

/// `Value::as_str`: the characters if the value is a string.
#[verifier::external_body]
pub(crate) fn text<'a>(value: &'a serde_json::Value) -> (r: Option<&'a str>)
    ensures
        match r {
            Some(s) => json_of(*value).text() == Some(s@),
            None => json_of(*value).text() is None,
        },
{
    value.as_str()
}

/// `Value::as_u64`: the number if the value is one that is an unsigned
/// 64-bit integer.
#[verifier::external_body]
pub(crate) fn unsigned(value: &serde_json::Value) -> (r: Option<u64>)
    ensures
        r == json_of(*value).unsigned(),
{
    value.as_u64()
}

/// `Value::as_bool`: the boolean if the value is one.
#[verifier::external_body]
pub(crate) fn boolean(value: &serde_json::Value) -> (r: Option<bool>)
    ensures
        r == json_of(*value).boolean(),
{
    value.as_bool()
}

/// `Value::is_null`.
#[verifier::external_body]
pub(crate) fn is_null(value: &serde_json::Value) -> (r: bool)
    ensures
        r == (json_of(*value) is Null),
{
    value.is_null()
}

/// The text of the member `key`, owned.
pub(crate) fn member_text(value: &serde_json::Value, key: &str) -> (r: Option<String>)
    ensures
        match r {
            Some(s) => json_of(*value).member_text(key@) == Some(s@),
            None => json_of(*value).member_text(key@) is None,
        },
{
    match member(value, key) {
        Some(v) => match text(v) {
            Some(s) => Some(s.to_owned()),
            None => None,
        },
        None => None,
    }
}

/// Whether there is a member `key` that is not `null`.
pub(crate) fn has_value(value: &serde_json::Value, key: &str) -> (r: bool)
    ensures
        r == json_of(*value).has_value(key@),
{
    match member(value, key) {
        Some(v) => !is_null(v),
        None => false,
    }
}

} // verus!

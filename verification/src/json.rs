//! The JSON values of a reply, read through `serde_json`.

use vstd::prelude::*;

verus! {

/// `serde_json::Value`, a parsed JSON value. Trusted: the type is carried
/// through as it is; what it holds is known only through [`json_view`].
#[verifier::external_type_specification]
#[verifier::external_body]
pub struct ExValue(serde_json::Value);

/// `serde_json::Error`, the reason why a text was refused as JSON. Trusted:
/// the type is carried through as it is.
#[verifier::external_type_specification]
#[verifier::external_body]
pub struct ExError(serde_json::Error);

/// A JSON value as this crate reads it. Numbers are not told apart.
pub enum Json {
    Null,
    Bool(bool),
    Number,
    String(Seq<char>),
    Array(Seq<Json>),
    Object(Map<Seq<char>, Json>),
}

impl Json {
    /// The member of an object under `key`; `Null` where the object has no
    /// such member or the value is no object.
    pub open spec fn member(self, key: Seq<char>) -> Json {
        match self {
            Json::Object(members) => if members.contains_key(key) {
                members[key]
            } else {
                Json::Null
            },
            _ => Json::Null,
        }
    }

    /// The text of a string value; `None` for any other value.
    pub open spec fn text(self) -> Option<Seq<char>> {
        match self {
            Json::String(s) => Some(s),
            _ => None,
        }
    }
}

/// What a `serde_json::Value` holds.
pub uninterp spec fn json_view(value: serde_json::Value) -> Json;

/// What `serde_json::from_slice` makes of `bytes`: the value read, or the
/// reason why the bytes are no JSON text.
pub uninterp spec fn json_parsed(bytes: Seq<u8>) -> Result<serde_json::Value, serde_json::Error>;

/// Calls `serde_json::from_slice` for a `serde_json::Value`. Trusted: the
/// outcome depends on the bytes alone.
#[verifier::external_body]
pub(crate) fn parse_json(bytes: &[u8]) -> (r: Result<serde_json::Value, serde_json::Error>)
    ensures
        r == json_parsed(bytes@),
{
    serde_json::from_slice::<serde_json::Value>(bytes)
}

/// Indexes a `serde_json::Value` by a key, as `value[key]` does. Trusted: the
/// result is the member of an object under that key, and a null value where
/// there is none or `value` is no object.
#[verifier::external_body]
pub(crate) fn json_member<'a>(value: &'a serde_json::Value, key: &str) -> (r: &'a serde_json::Value)
    ensures
        json_view(*r) == json_view(*value).member(key@),
{
    &value[key]
}

/// Calls `serde_json::Value::as_object` and tells whether it found an object.
/// Trusted: it does so for an object and for no other value.
#[verifier::external_body]
pub(crate) fn json_is_object(value: &serde_json::Value) -> (r: bool)
    ensures
        r == (json_view(*value) is Object),
{
    value.as_object().is_some()
}

/// Calls `serde_json::Value::as_str`. Trusted: a string value gives its text,
/// any other value gives `None`.
#[verifier::external_body]
pub(crate) fn json_as_str<'a>(value: &'a serde_json::Value) -> (r: Option<&'a str>)
    ensures
        match r {
            Some(s) => json_view(*value).text() == Some(s@),
            None => json_view(*value).text() is None,
        },
{
    value.as_str()
}

} // verus!

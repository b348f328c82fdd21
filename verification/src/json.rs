//! JSON documents as `serde_json` holds them, and what they hold.
//!
//! A `serde_json::Value` is opaque to the verifier. The contracts speak of
//! its [`content`], a mathematical tree, and the accessors below say how
//! each call on a value relates to that tree. What this module says of
//! `serde_json` is trusted; the decoding built on it is proved.

use serde_json::Value;
use vstd::prelude::*;

verus! {

/// What a JSON value holds. A number stands for itself only: nothing here
/// reads one.
pub enum Json {
    Null,
    Bool(bool),
    Number,
    Text(Seq<char>),
    Array(Seq<Json>),
    Object(Map<Seq<char>, Json>),
}

impl Json {
    /// The value is an object with a member named `key`.
    pub open spec fn has_member(self, key: Seq<char>) -> bool {
        self matches Json::Object(members) && members.contains_key(key)
    }

    /// The member named `key` of an object that has one.
    pub open spec fn member(self, key: Seq<char>) -> Json
        recommends
            self.has_member(key),
    {
        self->Object_0[key]
    }
}

/// `serde_json::Value`, carried through without a look inside.
#[verifier::external_type_specification]
#[verifier::external_body]
pub struct ExValue(serde_json::Value);

/// `serde_json::Error`: only its presence is read.
#[verifier::external_type_specification]
#[verifier::external_body]
pub struct ExError(serde_json::Error);

/// The tree that a `serde_json::Value` holds.
pub uninterp spec fn content(value: Value) -> Json;

/// What `serde_json` makes of a byte string: the tree of the document it
/// decodes to, or `None` where it rejects the bytes.
pub uninterp spec fn parsed(bytes: Seq<u8>) -> Option<Json>;

/// The trees held by the items of a slice of values, in order.
pub open spec fn contents(values: Seq<Value>) -> Seq<Json> {
    values.map_values(|value: Value| content(value))
}

/// Trusted: `serde_json::from_slice` at type `Value`. Claims that the outcome
/// is fixed by the bytes alone: either a value whose content is the parsed
/// tree, or an error exactly where there is no such tree.
#[verifier::external_body]
pub(crate) fn parse(bytes: &[u8]) -> (outcome: Result<Value, serde_json::Error>)
    ensures
        match outcome {
            Ok(value) => parsed(bytes@) == Some(content(value)),
            Err(_) => parsed(bytes@) is None,
        },
{
    serde_json::from_slice::<Value>(bytes)
}

/// Trusted: `Value::get` with a string key. Claims that it returns the member
/// of that name where the value is an object that has one, and `None` for
/// every other value.
#[verifier::external_body]
pub(crate) fn member<'a>(value: &'a Value, key: &str) -> (found: Option<&'a Value>)
    ensures
        match found {
            Some(inner) => content(*value).has_member(key@) && content(*inner) == content(
                *value,
            ).member(key@),
            None => !content(*value).has_member(key@),
        },
{
    value.get(key)
}

/// Trusted: `Value::as_array`. Claims that it returns the items of an array,
/// in order, and `None` for every other value.
pub assume_specification<'a>[ Value::as_array ](value: &'a Value) -> (items: Option<&'a Vec<Value>>)
    ensures
        match items {
            Some(list) => content(*value) == Json::Array(contents(list@)),
            None => !(content(*value) is Array),
        },
;

/// Trusted: `Value::as_str`. Claims that it returns the text of a string, and
/// `None` for every other value.
pub assume_specification<'a>[ Value::as_str ](value: &'a Value) -> (text: Option<&'a str>)
    ensures
        match text {
            Some(s) => content(*value) == Json::Text(s@),
            None => !(content(*value) is Text),
        },
;

/// Trusted: `Value::is_object`. Claims that it tells whether the value is an
/// object.
pub assume_specification[ Value::is_object ](value: &Value) -> (yes: bool)
    ensures
        yes == (content(*value) is Object),
;

} // verus!

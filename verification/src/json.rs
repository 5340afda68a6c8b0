//! The parts of `serde_json` that reading the asset document takes.
//!
//! A `serde_json::Value` is opaque to the verifier. What the contracts say
//! about one, they say through four names: the member under a key, and the
//! text, the flag and the items that a value holds. Nothing in this file is
//! proved; it states what `serde_json` documents.

use serde_json::Value;
use vstd::prelude::*;

verus! {

/// `serde_json::Value`, any JSON value. It is carried through as it is; what
/// it holds is read only through the functions below.
#[verifier::external_type_specification]
#[verifier::external_body]
pub struct ExValue(serde_json::Value);

/// What `value[key]` is: the member of the object `value` under `key`, and
/// JSON null where `value` is no object or has no such member.
pub uninterp spec fn json_member(value: Value, key: Seq<char>) -> Value;

/// The characters of `value` where it is a JSON string, `None` for every
/// other kind of value.
pub uninterp spec fn json_text(value: Value) -> Option<Seq<char>>;

/// The truth value of `value` where it is a JSON boolean, `None` for every
/// other kind of value.
pub uninterp spec fn json_flag(value: Value) -> Option<bool>;

/// The elements of `value` where it is a JSON array, `None` for every other
/// kind of value.
pub uninterp spec fn json_items(value: Value) -> Option<Seq<Value>>;

/// `serde_json::Value`'s index operator with a string key. It never panics:
/// where `value` is no object, or has no member under `key`, it hands out a
/// reference to JSON null. The contract only gives the result its name.
#[verifier::external_body]
pub(crate) fn member<'a>(value: &'a Value, key: &str) -> (found: &'a Value)
    ensures
        *found == json_member(*value, key@),
{
    &value[key]
}

/// `serde_json::Value::as_str` returns the string slice of a JSON string and
/// `None` for any other value. The contract only gives the result its name.
pub assume_specification[ Value::as_str ](value: &Value) -> (text: Option<&str>)
    ensures
        text is Some <==> json_text(*value) is Some,
        text is Some ==> json_text(*value) == Some(text->Some_0@),
;

/// `serde_json::Value::as_bool` returns the value of a JSON boolean and `None`
/// for any other value. The contract only gives the result its name.
pub assume_specification[ Value::as_bool ](value: &Value) -> (flag: Option<bool>)
    ensures
        flag == json_flag(*value),
;

/// `serde_json::Value::as_array` returns the vector of a JSON array and `None`
/// for any other value. The contract only gives the result its name.
pub assume_specification[ Value::as_array ](value: &Value) -> (items: Option<&Vec<Value>>)
    ensures
        items is Some <==> json_items(*value) is Some,
        items is Some ==> json_items(*value) == Some(items->Some_0@),
;

} // verus!

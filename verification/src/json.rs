//! JSON documents as `serde_json` holds them.
//!
//! The account record keeps what was registered in a `serde_json::Value`. That type stays opaque
//! here: `json_of` and `members_of` name what a value and a map hold, and the items below say what
//! each `serde_json` call that the library makes does to it. None of them is proved; everything
//! else in the crate is.

use std::collections::HashMap;
use vstd::prelude::*;

verus! {

/// The content of a JSON document.
#[verifier::ext_equal]
pub enum Json {
    Null,
    Bool(bool),
    /// A number, by the text that stands for it.
    Number(Seq<char>),
    Str(Seq<char>),
    Array(Seq<Json>),
    Object(Map<Seq<char>, Json>),
}

impl Json {
    /// The object without members.
    pub open spec fn empty_object() -> Json {
        Json::Object(Map::empty())
    }
}

/// `serde_json::Value`, a JSON document.
#[verifier::external_type_specification]
#[verifier::external_body]
pub struct ExValue(serde_json::Value);

/// `serde_json::Map`, the members of a JSON object.
#[verifier::external_type_specification]
#[verifier::external_body]
#[verifier::reject_recursive_types(K)]
#[verifier::reject_recursive_types(V)]
pub struct ExMap<K, V>(serde_json::Map<K, V>);

/// `serde_json::Error`, why a document could not be read as some type.
#[verifier::external_type_specification]
#[verifier::external_body]
pub struct ExError(serde_json::Error);

/// What a `serde_json::Value` holds.
pub uninterp spec fn json_of(value: serde_json::Value) -> Json;

/// What a `serde_json::Map` holds: the value under each key.
pub uninterp spec fn members_of(
    map: serde_json::Map<String, serde_json::Value>,
) -> Map<Seq<char>, Json>;

/// `serde_json::Value::clone`: a derived clone, the same document again.
pub assume_specification[ <serde_json::Value as Clone>::clone ](
    value: &serde_json::Value,
) -> (copy: serde_json::Value)
    ensures
        copy == *value,
;

/// `serde_json::Value::as_object_mut`: the members of an object, to be changed in place; nothing
/// for any other value. What the map holds at the end is what the object then holds.
pub assume_specification[ serde_json::Value::as_object_mut ](
    value: &mut serde_json::Value,
) -> (members: Option<&mut serde_json::Map<String, serde_json::Value>>)
    ensures
        match members {
            Some(map) => {
                &&& json_of(*old(value)) == Json::Object(members_of(*map))
                &&& json_of(*final(value)) == Json::Object(members_of(*final(map)))
            },
            None => {
                &&& !(json_of(*old(value)) is Object)
                &&& *final(value) == *old(value)
            },
        },
;

/// `serde_json::Value::as_array`: the items of an array in order; nothing for any other value.
pub assume_specification[ serde_json::Value::as_array ](
    value: &serde_json::Value,
) -> (items: Option<&Vec<serde_json::Value>>)
    ensures
        match items {
            Some(items) => json_of(*value) == Json::Array(
                items@.map_values(|item: serde_json::Value| json_of(item)),
            ),
            None => !(json_of(*value) is Array),
        },
;

/// `serde_json::Value::as_str`: the text of a string; nothing for any other value.
pub assume_specification[ serde_json::Value::as_str ](value: &serde_json::Value) -> (text: Option<
    &str,
>)
    ensures
        match text {
            Some(text) => json_of(*value) == Json::Str(text@),
            None => !(json_of(*value) is Str),
        },
;

/// `serde_json::Map::new`: a map without members.
pub assume_specification[ serde_json::Map::<String, serde_json::Value>::new ]() -> (map:
    serde_json::Map<String, serde_json::Value>)
    ensures
        Json::Object(members_of(map)) == Json::empty_object(),
;

/// `serde_json::Map::insert`: puts the value under the key, in place of the value that was there,
/// which is returned. The other members stay.
pub assume_specification[ serde_json::Map::<String, serde_json::Value>::insert ](
    map: &mut serde_json::Map<String, serde_json::Value>,
    key: String,
    value: serde_json::Value,
) -> (replaced: Option<serde_json::Value>)
    ensures
        members_of(*final(map)) == members_of(*old(map)).insert(key@, json_of(value)),
        match replaced {
            Some(before) => {
                &&& members_of(*old(map)).contains_key(key@)
                &&& json_of(before) == members_of(*old(map))[key@]
            },
            None => !members_of(*old(map)).contains_key(key@),
        },
;

/// `serde_json::Value::String`: the string value with this text.
#[verifier::external_body]
pub(crate) fn string_value(text: String) -> (value: serde_json::Value)
    ensures
        json_of(value) == Json::Str(text@),
{
    serde_json::Value::String(text)
}

/// `serde_json::Value::Object`: the object value with these members.
#[verifier::external_body]
pub(crate) fn object_value(map: serde_json::Map<String, serde_json::Value>) -> (value:
    serde_json::Value)
    ensures
        json_of(value) == Json::Object(members_of(map)),
{
    serde_json::Value::Object(map)
}

/// `serde_json::Value::get` with a string index: the member of an object under the key; nothing if
/// the object has no such member or the value is no object.
#[verifier::external_body]
pub(crate) fn member<'a>(value: &'a serde_json::Value, key: &str) -> (found: Option<
    &'a serde_json::Value,
>)
    ensures
        match found {
            Some(inner) => {
                &&& json_of(*value) is Object
                &&& json_of(*value)->Object_0.contains_key(key@)
                &&& json_of(*inner) == json_of(*value)->Object_0[key@]
            },
            None => json_of(*value) matches Json::Object(members) ==> !members.contains_key(key@),
        },
{
    value.get(key)
}

/// The pairs are the members, each key once, in some order.
pub open spec fn lists_members(
    pairs: Seq<(String, serde_json::Value)>,
    members: Map<Seq<char>, Json>,
) -> bool {
    &&& forall|i: int, j: int|
        0 <= i < j < pairs.len() ==> (#[trigger] pairs[i]).0@ != (#[trigger] pairs[j]).0@
    &&& forall|i: int|
        0 <= i < pairs.len() ==> members.contains_key((#[trigger] pairs[i]).0@)
            && json_of(pairs[i].1) == members[pairs[i].0@]
    &&& forall|key: Seq<char>| #[trigger]
        members.contains_key(key) ==> exists|i: int|
            0 <= i < pairs.len() && (#[trigger] pairs[i]).0@ == key
}

/// `serde_json::from_value`, read as a `HashMap` from `String` to `serde_json::Value`: succeeds on
/// an object and on nothing else, and then gives its members. A `HashMap` is walked in no
/// particular order, so nothing is said of the order of the pairs.
#[verifier::external_body]
pub(crate) fn object_members(value: serde_json::Value) -> (members: Result<
    Vec<(String, serde_json::Value)>,
    serde_json::Error,
>)
    ensures
        match members {
            Ok(pairs) => {
                &&& json_of(value) is Object
                &&& lists_members(pairs@, json_of(value)->Object_0)
            },
            Err(_) => !(json_of(value) is Object),
        },
{
    let map: HashMap<String, serde_json::Value> = serde_json::from_value(value)?;
    Ok(map.into_iter().collect())
}

} // verus!

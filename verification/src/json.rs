use vstd::prelude::*;

verus! {

/// A JSON value.
#[verifier::external_type_specification]
#[verifier::external_body]
pub struct ExJsonValue(serde_json::Value);

/// A JSON object: keys and their values.
#[verifier::external_type_specification]
#[verifier::external_body]
#[verifier::reject_recursive_types(K)]
#[verifier::reject_recursive_types(V)]
pub struct ExJsonObject<K, V>(serde_json::Map<K, V>);

/// What a JSON object holds, as the logic reads it: each key, with the text
/// of its value where that value is a JSON string and `None` where it is any
/// other kind of value.
pub uninterp spec fn json_object_strings(
    object: serde_json::Map<String, serde_json::Value>,
) -> Map<Seq<char>, Option<Seq<char>>>;

/// The view of an optional text.
pub open spec fn optional_text(text: Option<String>) -> Option<Seq<char>> {
    match text {
        Some(t) => Some(t@),
        None => None,
    }
}

/// Looks a key up in a JSON object.
///
/// Calls `serde_json::Map::get`, which finds the value stored under `key`,
/// and reads the value with `serde_json::Value::as_str`, which gives its text
/// when it is a JSON string. `None`: the key is absent; `Some(None)`: present
/// with a value that is no string; `Some(Some(text))`: present with that text.
#[verifier::external_body]
pub(crate) fn lookup_string(
    object: &serde_json::Map<String, serde_json::Value>,
    key: &str,
) -> (found: Option<Option<String>>)
    ensures
        found is None <==> !json_object_strings(*object).dom().contains(key@),
        found matches Some(text) ==> optional_text(text) == json_object_strings(*object)[key@],
{
    match object.get(key) {
        Some(value) => match value.as_str() {
            Some(text) => Some(Some(text.to_string())),
            None => Some(None),
        },
        None => None,
    }
}

} // verus!

//! A plain tree representation of a decoded JSON document.
//!
//! The provider's output arrives as bytes.  An outside parser turns those
//! bytes into a tree of plain values; everything the pipeline then decides
//! about the tree — which fields it has, which variant tags it carries —
//! is verified logic over this type.

use vstd::prelude::*;

verus! {

/// A JSON document as a tree of plain values.
///
/// Object fields are kept as a list of key/value pairs; numbers carry no
/// payload because no field the pipeline reads is numeric.
pub enum JsonValue {
    Null,
    Bool(bool),
    Num,
    Str(String),
    Arr(Vec<JsonValue>),
    Obj(Vec<(String, JsonValue)>),
}

#[verifier::external_type_specification]
#[verifier::external_body]
pub struct ExSerdeValue(serde_json::Value);

/// The tree that the outside JSON parser produces from the given bytes,
/// or nothing when the bytes are not valid JSON.
pub uninterp spec fn json_tree_of(bytes: Seq<u8>) -> Option<JsonValue>;

/// Relies on serde_json::Value's variants: each arm moves one variant of
/// the parsed tree over, one to one.
#[verifier::external_body]
fn json_value_of(v: serde_json::Value) -> JsonValue {
    match v {
        serde_json::Value::Null => JsonValue::Null,
        serde_json::Value::Bool(b) => JsonValue::Bool(b),
        serde_json::Value::Number(_) => JsonValue::Num,
        serde_json::Value::String(s) => JsonValue::Str(s),
        serde_json::Value::Array(a) => JsonValue::Arr(a.into_iter().map(json_value_of).collect()),
        serde_json::Value::Object(o) => JsonValue::Obj(
            o.into_iter().map(|(k, w)| (k, json_value_of(w))).collect(),
        ),
    }
}

/// Relies on serde_json::from_slice::<serde_json::Value>: the parse result
/// is a pure function of the input bytes, and fails exactly on input that
/// is not valid JSON.
#[verifier::external_body]
pub fn parse_json_tree(bytes: &[u8]) -> (r: Option<JsonValue>)
    ensures
        r == json_tree_of(bytes@),
{
    match serde_json::from_slice::<serde_json::Value>(bytes) {
        Ok(v) => Some(json_value_of(v)),
        Err(_) => None,
    }
}

/// First-match lookup of a field in a JSON object's pair list.
pub open spec fn json_assoc(fields: Seq<(String, JsonValue)>, k: Seq<char>) -> Option<JsonValue>
    decreases fields.len(),
{
    if fields.len() == 0 {
        None
    } else if fields[0].0@ == k {
        Some(fields[0].1)
    } else {
        json_assoc(fields.drop_first(), k)
    }
}

proof fn lemma_json_assoc_skip(fields: Seq<(String, JsonValue)>, k: Seq<char>, i: int)
    requires
        0 <= i <= fields.len(),
        forall|j: int| 0 <= j < i ==> (#[trigger] fields[j]).0@ != k,
    ensures
        json_assoc(fields, k) == json_assoc(fields.skip(i), k),
    decreases i,
{
    if i > 0 {
        lemma_json_assoc_skip(fields.drop_first(), k, i - 1);
        assert(fields.drop_first().skip(i - 1) =~= fields.skip(i));
    } else {
        assert(fields.skip(0) =~= fields);
    }
}

/// Look a field up in an object's pair list, first match first.
pub fn obj_get<'a>(fields: &'a Vec<(String, JsonValue)>, key: &String) -> (r: Option<
    &'a JsonValue,
>)
    ensures
        match r {
            Some(v) => json_assoc(fields@, key@) == Some(*v),
            None => json_assoc(fields@, key@) is None,
        },
{
    let mut i: usize = 0;
    while i < fields.len()
        invariant
            0 <= i <= fields.len(),
            forall|j: int| 0 <= j < i ==> (#[trigger] fields@[j]).0@ != key@,
        decreases fields.len() - i,
    {
        if fields[i].0 == *key {
            proof {
                lemma_json_assoc_skip(fields@, key@, i as int);
                assert(fields@.skip(i as int)[0] == fields@[i as int]);
            }
            return Some(&fields[i].1);
        }
        i += 1;
    }
    proof {
        lemma_json_assoc_skip(fields@, key@, fields@.len() as int);
        assert(fields@.skip(fields@.len() as int) =~= Seq::<(String, JsonValue)>::empty());
    }
    None
}

} // verus!

//! The trusted boundary to the JSON parser: response bodies and the
//! persisted configuration record are texts, and serde_json turns them into
//! structured values.

use vstd::prelude::*;
use crate::value::StructuredValue;
use crate::value::SpecValue;

verus! {

#[verifier::external_type_specification]
#[verifier::external_body]
pub struct ExJsonValue(serde_json::Value);

/// What parsing a text yields: the parsed structured value when the text is
/// well-formed JSON within the parser's nesting limit, nothing otherwise.
/// The outcome is a function of the text alone.
pub uninterp spec fn parsed_body(s: Seq<char>) -> Option<SpecValue>;

/// Relies on the variants of `serde_json::Value`: carries a parsed tree over
/// onto the library's value type, one arm per variant, moving fields; a
/// number keeps its serialized decimal text, and object entries keep their
/// stored order. Called only by `parse_structured`, whose contract covers
/// the composition.
#[verifier::external_body]
fn structured_of_json(v: &serde_json::Value) -> StructuredValue {
    match v {
        serde_json::Value::Null => StructuredValue::Null,
        serde_json::Value::Bool(b) => StructuredValue::Boolean(*b),
        serde_json::Value::Number(n) => StructuredValue::Number(n.to_string()),
        serde_json::Value::String(s) => StructuredValue::Text(s.clone()),
        serde_json::Value::Array(items) => StructuredValue::Sequence(
            items.iter().map(structured_of_json).collect(),
        ),
        serde_json::Value::Object(map) => StructuredValue::Mapping(
            map.iter().map(|(k, sub)| (k.clone(), structured_of_json(sub))).collect(),
        ),
    }
}

/// Relies on `serde_json::from_str::<serde_json::Value>`: it returns the
/// parsed value exactly when the text is well-formed JSON (within the
/// parser's nesting limit), deterministically in the text; with the
/// `preserve_order` feature, object entries come back in their order of
/// appearance.
#[verifier::external_body]
pub(crate) fn parse_structured(s: &str) -> (r: Option<StructuredValue>)
    ensures
        match r {
            Some(v) => parsed_body(s@) == Some(v@),
            None => parsed_body(s@) is None,
        },
{
    match serde_json::from_str::<serde_json::Value>(s) {
        Ok(v) => Some(structured_of_json(&v)),
        Err(_) => None,
    }
}

} // verus!

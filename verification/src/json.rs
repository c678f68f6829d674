//! Reading the provisioning document. serde_json parses the text and
//! each top-level value is classified into the library's plain entry
//! form in one trusted step; the result is a function of the text
//! alone, so it carries a name that the wrapper's contract applies.
//! Everything after the parse — lookups, mutation, re-rendering — is
//! verified code over plain values.

use vstd::prelude::*;

use crate::balena_cfg_json::{CfgEntry, CfgValue};

verus! {

#[verifier::external_type_specification]
#[verifier::external_body]
pub struct ExJsonValue(serde_json::Value);

/// The entries of the JSON object the text parses to, each value
/// classified as a string, a non-negative integer, or its JSON text
/// verbatim, in the deterministic order serde_json keeps object
/// entries in; `None` when the text does not parse as a JSON object.
pub uninterp spec fn json_entries_of(s: Seq<char>) -> Option<Seq<CfgEntry>>;

/// Relies on serde_json::from_str, Value::as_u64 and Value's JSON
/// rendering: parses the document and classifies each top-level entry.
/// The result depends on the text alone (object entries come back in
/// serde_json's deterministic order, and each value classifies the
/// same way on every machine).
#[verifier::external_body]
pub fn json_parse_entries(s: &str) -> (r: Option<Vec<CfgEntry>>)
    ensures
        match r {
            Some(v) => json_entries_of(s@) == Some(v@),
            None => json_entries_of(s@) is None,
        },
{
    match serde_json::from_str::<serde_json::Value>(s) {
        Ok(serde_json::Value::Object(map)) => Some(
            map.into_iter().map(
                |(key, value)| CfgEntry { key, value: json_value_from(value) },
            ).collect(),
        ),
        _ => None,
    }
}

/// Relies on serde_json::Value::as_u64 and Value's JSON rendering:
/// classifies one value. Helper of `json_parse_entries`.
#[verifier::external_body]
fn json_value_from(value: serde_json::Value) -> CfgValue {
    match value {
        serde_json::Value::String(text) => CfgValue::Str(text),
        other => match other.as_u64() {
            Some(number) => CfgValue::UInt(number),
            None => CfgValue::Other(other.to_string()),
        },
    }
}

} // verus!

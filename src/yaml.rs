//! The YAML values and text of serde_yaml, as this library uses them.
use vstd::prelude::*;

verus! {

#[verifier::external_type_specification]
#[verifier::external_body]
pub struct ExYamlValue(serde_yaml::Value);

#[verifier::external_type_specification]
#[verifier::external_body]
pub struct ExYamlError(serde_yaml::Error);

/// The YAML string value holding the given text.
pub uninterp spec fn yaml_scalar(s: Seq<char>) -> serde_yaml::Value;

/// The YAML mapping holding the given entries, in the given order.
pub uninterp spec fn yaml_mapping(entries: Seq<(serde_yaml::Value, serde_yaml::Value)>) -> serde_yaml::Value;

/// The text that serde_yaml emits for a value, or `None` where it fails.
pub uninterp spec fn yaml_rendering(v: serde_yaml::Value) -> Option<Seq<char>>;

/// Relies on `serde_yaml::Value::String`: a string value made of the text.
#[verifier::external_body]
pub(crate) fn yaml_text(s: &String) -> (r: serde_yaml::Value)
    ensures
        r == yaml_scalar(s@),
{
    serde_yaml::Value::String(s.clone())
}

/// Relies on `serde_yaml::Mapping`'s `FromIterator`: a mapping that keeps the
/// entries in insertion order.
#[verifier::external_body]
pub(crate) fn yaml_map(entries: Vec<(serde_yaml::Value, serde_yaml::Value)>) -> (r: serde_yaml::Value)
    ensures
        r == yaml_mapping(entries@),
{
    serde_yaml::Value::Mapping(entries.into_iter().collect())
}

/// Relies on `serde_yaml::to_string`: the emitted text, which depends on the
/// value alone.
#[verifier::external_body]
pub(crate) fn yaml_emit(v: &serde_yaml::Value) -> (r: Result<String, serde_yaml::Error>)
    ensures
        match r {
            Ok(s) => yaml_rendering(*v) == Some(s@),
            Err(_) => yaml_rendering(*v) is None,
        },
{
    serde_yaml::to_string(v)
}

/// Relies on `Display` of `serde_yaml::Error`: a description of the failure.
#[verifier::external_body]
pub(crate) fn yaml_error_text(e: &serde_yaml::Error) -> (r: String) {
    e.to_string()
}

} // verus!

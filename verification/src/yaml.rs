//! The YAML document model that the decoders read.
//!
//! Documents are `serde_yaml` values. The verifier cannot look inside one, so
//! this module names what a value holds and states, for each function of
//! `serde_yaml` that the library calls, what it returns in terms of those
//! names. Nothing in this module is proved: every contract here is taken from
//! the source of `serde_yaml` and believed.

use serde_yaml::Mapping;
use serde_yaml::Value;
use vstd::prelude::*;

verus! {

/// `serde_yaml::Value`: one node of a YAML document.
#[verifier::external_type_specification]
#[verifier::external_body]
pub struct ExValue(serde_yaml::Value);

/// `serde_yaml::Mapping`: the key/value pairs of a YAML mapping.
#[verifier::external_type_specification]
#[verifier::external_body]
pub struct ExMapping(serde_yaml::Mapping);

/// `serde_yaml::Error`: why a text is not a YAML document.
#[verifier::external_type_specification]
#[verifier::external_body]
pub struct ExError(serde_yaml::Error);

/// The value that a mapping holds under the string key `key`, if it has that
/// key.
pub uninterp spec fn mapping_field(map: Mapping, key: Seq<char>) -> Option<Value>;

/// The text of a value that is a string; `None` for every other value.
pub uninterp spec fn value_text(value: Value) -> Option<Seq<char>>;

/// The truth value of a value that is a boolean; `None` for every other value.
pub uninterp spec fn value_flag(value: Value) -> Option<bool>;

/// The pairs of a value that is a mapping; `None` for every other value.
pub uninterp spec fn value_mapping(value: Value) -> Option<Mapping>;

/// The elements, in document order, of a value that is a sequence; `None` for
/// every other value.
pub uninterp spec fn value_items(value: Value) -> Option<Seq<Value>>;

/// The document that a text denotes, or the parser's error where the text is
/// not one well-formed YAML document.
pub uninterp spec fn yaml_document(text: Seq<char>) -> Result<Value, serde_yaml::Error>;

/// `Mapping::get`, called with the key `Value::String(key)`: the value stored
/// under that key, or `None` where the mapping has no such key.
#[verifier::external_body]
pub(crate) fn lookup<'a>(map: &'a Mapping, key: &str) -> (found: Option<&'a Value>)
    ensures
        match found {
            Some(value) => mapping_field(*map, key@) == Some(*value),
            None => mapping_field(*map, key@) is None,
        },
{
    map.get(&Value::String(String::from(key)))
}

/// `Value::as_str`: the text of a string value, `None` for any other value.
#[verifier::external_body]
pub(crate) fn text_of<'a>(value: &'a Value) -> (text: Option<&'a str>)
    ensures
        match text {
            Some(s) => value_text(*value) == Some(s@),
            None => value_text(*value) is None,
        },
{
    value.as_str()
}

/// `Value::as_bool`: the truth value of a boolean value, `None` for any other
/// value.
#[verifier::external_body]
pub(crate) fn flag_of(value: &Value) -> (flag: Option<bool>)
    ensures
        flag == value_flag(*value),
{
    value.as_bool()
}

/// `Value::as_mapping`: the mapping inside a mapping value, `None` for any
/// other value.
#[verifier::external_body]
pub(crate) fn mapping_of<'a>(value: &'a Value) -> (inner: Option<&'a Mapping>)
    ensures
        match inner {
            Some(map) => value_mapping(*value) == Some(*map),
            None => value_mapping(*value) is None,
        },
{
    value.as_mapping()
}

/// `Value::as_sequence`: the elements of a sequence value, `None` for any
/// other value.
#[verifier::external_body]
pub(crate) fn items_of<'a>(value: &'a Value) -> (items: Option<&'a Vec<Value>>)
    ensures
        match items {
            Some(list) => value_items(*value) == Some(list@),
            None => value_items(*value) is None,
        },
{
    value.as_sequence()
}

/// `Clone::clone` of a `Mapping`, which `serde_yaml` derives: the copy is
/// equal to the mapping it was made from.
#[verifier::external_body]
pub(crate) fn copy_of(map: &Mapping) -> (copy: Mapping)
    ensures
        copy == *map,
{
    map.clone()
}

/// `serde_yaml::from_str`, read as a `Value`: the document that the text
/// denotes, or the parser's error where it denotes none.
#[verifier::external_body]
pub(crate) fn parse(text: &str) -> (parsed: Result<Value, serde_yaml::Error>)
    ensures
        parsed == yaml_document(text@),
{
    serde_yaml::from_str(text)
}

/// `ToString::to_string` of a `serde_yaml::Error`: the parser's own account of
/// what is wrong with a text. Nothing is claimed of its wording.
#[verifier::external_body]
pub(crate) fn describe(error: &serde_yaml::Error) -> String {
    error.to_string()
}

} // verus!

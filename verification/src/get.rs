//! The field extractor: typed access to one key of a YAML mapping.
//!
//! Each accessor looks a key up once and reports, instead of the value, why
//! there is none: the key is missing, or what it holds has another type.

use crate::yaml::copy_of;
use crate::yaml::flag_of;
use crate::yaml::items_of;
use crate::yaml::lookup;
use crate::yaml::mapping_field;
use crate::yaml::mapping_of;
use crate::yaml::text_of;
use crate::yaml::value_flag;
use crate::yaml::value_items;
use crate::yaml::value_mapping;
use crate::yaml::value_text;
use serde_yaml::Mapping;
use serde_yaml::Value;
use vstd::prelude::*;
use vstd::string::StringExecFns;

verus! {

/// Why a field could not be extracted.
#[derive(Clone, Copy, Debug, PartialEq, Eq, Structural)]
pub enum Reason {
    /// The mapping has no such key.
    Missing,
    /// The key is there, and its value is not of the type asked for.
    WrongType,
}

/// A failed extraction: the key that was asked for, and why nothing came back.
#[derive(Debug, PartialEq, Eq)]
pub struct FieldError {
    /// The key that was looked up.
    pub field: String,
    /// Why the lookup gave no value.
    pub reason: Reason,
}

/// A `FieldError` as a mathematical value.
pub ghost struct FieldErrorView {
    pub field: Seq<char>,
    pub reason: Reason,
}

impl View for FieldError {
    type V = FieldErrorView;

    open spec fn view(&self) -> FieldErrorView {
        FieldErrorView { field: self.field@, reason: self.reason }
    }
}

impl Clone for FieldError {
    fn clone(&self) -> (copy: Self)
        ensures
            copy == *self,
    {
        FieldError { field: self.field.clone(), reason: self.reason }
    }
}

/// The outcome of an extraction as a mathematical value: the view of what was
/// extracted, or the view of the failure.
pub open spec fn outcome<T: View>(result: Result<T, FieldError>) -> Result<T::V, FieldErrorView> {
    match result {
        Ok(x) => Ok(x@),
        Err(e) => Err(e@),
    }
}

/// The tolerant reading of an outcome, for an optional field: whatever went
/// wrong, the field is absent.
pub open spec fn tolerated<T>(outcome: Result<T, FieldErrorView>) -> Option<T> {
    match outcome {
        Ok(x) => Some(x),
        Err(_) => None,
    }
}

/// What an extraction yields for the key `key`, given what the lookup found:
/// `None` for no such key, `Some(None)` for a value of another type, and
/// `Some(Some(x))` for the typed value `x`.
pub open spec fn field_outcome<T>(key: Seq<char>, found: Option<Option<T>>) -> Result<
    T,
    FieldErrorView,
> {
    match found {
        None => Err(FieldErrorView { field: key, reason: Reason::Missing }),
        Some(None) => Err(FieldErrorView { field: key, reason: Reason::WrongType }),
        Some(Some(x)) => Ok(x),
    }
}

/// The result of extracting the string under `key`.
pub open spec fn string_at(map: Mapping, key: Seq<char>) -> Result<Seq<char>, FieldErrorView> {
    field_outcome(
        key,
        match mapping_field(map, key) {
            Some(value) => Some(value_text(value)),
            None => None,
        },
    )
}

/// The result of extracting the boolean under `key`.
pub open spec fn bool_at(map: Mapping, key: Seq<char>) -> Result<bool, FieldErrorView> {
    field_outcome(
        key,
        match mapping_field(map, key) {
            Some(value) => Some(value_flag(value)),
            None => None,
        },
    )
}

/// The result of extracting the nested mapping under `key`.
pub open spec fn mapping_at(map: Mapping, key: Seq<char>) -> Result<Mapping, FieldErrorView> {
    field_outcome(
        key,
        match mapping_field(map, key) {
            Some(value) => Some(value_mapping(value)),
            None => None,
        },
    )
}

/// The result of extracting the sequence under `key`.
pub open spec fn sequence_at(map: Mapping, key: Seq<char>) -> Result<Seq<Value>, FieldErrorView> {
    field_outcome(
        key,
        match mapping_field(map, key) {
            Some(value) => Some(value_items(value)),
            None => None,
        },
    )
}

/// Turns what a lookup of `key` found into the extraction's result: the typed
/// value, or the failure that names `key` and tells a missing key from a value
/// of the wrong type.
pub fn field_from<T>(key: &str, found: Option<Option<T>>) -> (result: Result<T, FieldError>)
    ensures
        match result {
            Ok(x) => field_outcome(key@, found) == Ok::<T, FieldErrorView>(x),
            Err(e) => field_outcome(key@, found) == Err::<T, FieldErrorView>(e@),
        },
{
    match found {
        None => Err(FieldError { field: String::from_str(key), reason: Reason::Missing }),
        Some(None) => Err(FieldError { field: String::from_str(key), reason: Reason::WrongType }),
        Some(Some(x)) => Ok(x),
    }
}

/// The string stored under `key`.
///
/// Fails with `Missing` where the mapping has no such key and with
/// `WrongType` where the value under it is not a string.
pub fn get_string(map: &Mapping, key: &str) -> (result: Result<String, FieldError>)
    ensures
        outcome(result) == string_at(*map, key@),
{
    let found = match lookup(map, key) {
        Some(value) => Some(text_of(value)),
        None => None,
    };
    match field_from(key, found) {
        Ok(text) => Ok(String::from_str(text)),
        Err(e) => Err(e),
    }
}

/// The boolean stored under `key`.
///
/// Fails with `Missing` where the mapping has no such key and with
/// `WrongType` where the value under it is not a boolean.
pub fn get_bool(map: &Mapping, key: &str) -> (result: Result<bool, FieldError>)
    ensures
        outcome(result) == bool_at(*map, key@),
{
    let found = match lookup(map, key) {
        Some(value) => Some(flag_of(value)),
        None => None,
    };
    field_from(key, found)
}

/// The nested mapping stored under `key`, as a copy of its own.
///
/// Fails with `Missing` where the mapping has no such key and with
/// `WrongType` where the value under it is not a mapping.
pub fn get_mapping(map: Mapping, key: &str) -> (result: Result<Mapping, FieldError>)
    ensures
        match result {
            Ok(inner) => mapping_at(map, key@) == Ok::<Mapping, FieldErrorView>(inner),
            Err(e) => mapping_at(map, key@) == Err::<Mapping, FieldErrorView>(e@),
        },
{
    let found = match lookup(&map, key) {
        Some(value) => Some(mapping_of(value)),
        None => None,
    };
    match field_from(key, found) {
        Ok(inner) => Ok(copy_of(inner)),
        Err(e) => Err(e),
    }
}

/// The sequence stored under `key`, element by element in document order.
///
/// Fails with `Missing` where the mapping has no such key and with
/// `WrongType` where the value under it is not a sequence.
pub fn get_sequence<'a>(map: &'a Mapping, key: &str) -> (result: Result<&'a Vec<Value>, FieldError>)
    ensures
        match result {
            Ok(items) => sequence_at(*map, key@) == Ok::<Seq<Value>, FieldErrorView>(items@),
            Err(e) => sequence_at(*map, key@) == Err::<Seq<Value>, FieldErrorView>(e@),
        },
{
    let found = match lookup(map, key) {
        Some(value) => Some(items_of(value)),
        None => None,
    };
    field_from(key, found)
}

} // verus!

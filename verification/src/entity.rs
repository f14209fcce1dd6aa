//! What clusters, contexts and users have in common: each is a named record
//! decoded from one entry of a collection, and each is found again by its name.

use crate::get::get_sequence;
use crate::get::outcome;
use crate::get::sequence_at;
use crate::get::FieldError;
use crate::get::FieldErrorView;
use crate::get::Reason;
use crate::yaml::copy_of;
use crate::yaml::mapping_of;
use crate::yaml::value_mapping;
use serde_yaml::Mapping;
use serde_yaml::Value;
use vstd::prelude::*;
use vstd::string::StringExecFns;

verus! {

/// A named record of the document: a cluster, a context or a user.
pub trait Entity: View + Sized {
    /// The record that an entry denotes, or the first required field that the
    /// entry lacks.
    spec fn decoded(map: Mapping) -> Result<Self::V, FieldErrorView>;

    /// The name by which the record is looked up.
    spec fn label(&self) -> Seq<char>;

    /// Decodes one entry of a collection.
    fn deserialize(map: Mapping) -> (result: Result<Self, FieldError>)
        ensures
            outcome(result) == Self::decoded(map),
    ;

    /// The record's name.
    fn name(&self) -> (name: &String)
        ensures
            name@ == self.label(),
    ;
}

/// The text of an optional string.
pub open spec fn optional_text(text: Option<String>) -> Option<Seq<char>> {
    match text {
        Some(s) => Some(s@),
        None => None,
    }
}

/// A copy of an optional string.
pub(crate) fn copied(text: &Option<String>) -> (copy: Option<String>)
    ensures
        copy == *text,
{
    match text {
        Some(s) => Some(s.clone()),
        None => None,
    }
}

/// The views of a sequence of records, in the same order.
pub open spec fn views<T: View>(items: Seq<T>) -> Seq<T::V> {
    Seq::new(items.len(), |i: int| items[i]@)
}

/// What one element of the collection under `key` decodes to. An element that
/// is not a mapping is a value of the wrong type for `key`.
pub open spec fn entry_outcome<T: Entity>(key: Seq<char>, entry: Value) -> Result<
    T::V,
    FieldErrorView,
> {
    match value_mapping(entry) {
        Some(map) => T::decoded(map),
        None => Err(FieldErrorView { field: key, reason: Reason::WrongType }),
    }
}

/// Whether `at` is the first element of the collection that fails to decode.
pub open spec fn first_failure<T: Entity>(key: Seq<char>, entries: Seq<Value>, at: int) -> bool {
    &&& 0 <= at < entries.len()
    &&& entry_outcome::<T>(key, entries[at]) is Err
    &&& forall|j: int| 0 <= j < at ==> (#[trigger] entry_outcome::<T>(key, entries[j])) is Ok
}

/// What the collection under `key` decodes to: one record for each element, in
/// document order, where every element decodes; else the failure of the first
/// element that does not.
pub open spec fn entries_outcome<T: Entity>(key: Seq<char>, entries: Seq<Value>) -> Result<
    Seq<T::V>,
    FieldErrorView,
> {
    if exists|at: int| first_failure::<T>(key, entries, at) {
        let at = choose|at: int| first_failure::<T>(key, entries, at);
        Err(entry_outcome::<T>(key, entries[at])->Err_0)
    } else {
        Ok(Seq::new(entries.len(), |i: int| entry_outcome::<T>(key, entries[i])->Ok_0))
    }
}

/// Decodes the elements of the collection under `key`, in order, and stops at
/// the first that fails.
pub fn decode_entries<T: Entity>(key: &str, entries: &Vec<Value>) -> (result: Result<
    Vec<T>,
    FieldError,
>)
    ensures
        match result {
            Ok(records) => entries_outcome::<T>(key@, entries@) == Ok::<
                Seq<T::V>,
                FieldErrorView,
            >(views(records@)),
            Err(e) => entries_outcome::<T>(key@, entries@) == Err::<Seq<T::V>, FieldErrorView>(
                e@,
            ),
        },
{
    let mut records: Vec<T> = Vec::new();
    let mut i: usize = 0;
    while i < entries.len()
        invariant
            i <= entries.len(),
            records.len() == i,
            forall|j: int|
                0 <= j < i ==> (#[trigger] entry_outcome::<T>(key@, entries[j])) == Ok::<
                    T::V,
                    FieldErrorView,
                >(records[j]@),
        decreases entries.len() - i,
    {
        let decoded = match mapping_of(&entries[i]) {
            Some(map) => T::deserialize(copy_of(map)),
            None => Err(FieldError { field: String::from_str(key), reason: Reason::WrongType }),
        };
        match decoded {
            Ok(record) => {
                records.push(record);
            },
            Err(e) => {
                proof {
                    let at = i as int;
                    assert(first_failure::<T>(key@, entries@, at));
                    let chosen = choose|at: int| first_failure::<T>(key@, entries@, at);
                    assert(chosen == at) by {
                        if chosen < at {
                            assert(entry_outcome::<T>(key@, entries[chosen]) is Ok);
                        } else if chosen > at {
                            assert(entry_outcome::<T>(key@, entries[at]) is Ok);
                        }
                    }
                }
                return Err(e);
            },
        }
        i = i + 1;
    }
    proof {
        assert forall|at: int| !first_failure::<T>(key@, entries@, at) by {
            if 0 <= at < entries.len() {
                assert(entry_outcome::<T>(key@, entries[at]) is Ok);
            }
        }
        assert(views(records@) =~= Seq::new(
            entries@.len(),
            |i: int| entry_outcome::<T>(key@, entries[i])->Ok_0,
        ));
    }
    Ok(records)
}

/// What the collection under `key` of a mapping decodes to. The key is
/// required, and it must hold a sequence.
pub open spec fn collection_at<T: Entity>(map: Mapping, key: Seq<char>) -> Result<
    Seq<T::V>,
    FieldErrorView,
> {
    match sequence_at(map, key) {
        Err(e) => Err(e),
        Ok(entries) => entries_outcome::<T>(key, entries),
    }
}

/// Decodes the collection under `key` of a mapping.
///
/// Fails where the key is missing, where it holds no sequence, and where an
/// element fails to decode; no part of a collection is ever returned.
pub fn get_collection<T: Entity>(map: &Mapping, key: &str) -> (result: Result<Vec<T>, FieldError>)
    ensures
        match result {
            Ok(records) => collection_at::<T>(*map, key@) == Ok::<Seq<T::V>, FieldErrorView>(
                views(records@),
            ),
            Err(e) => collection_at::<T>(*map, key@) == Err::<Seq<T::V>, FieldErrorView>(e@),
        },
{
    match get_sequence(map, key) {
        Ok(entries) => decode_entries(key, entries),
        Err(e) => Err(e),
    }
}

/// Whether `at` is the first record named `wanted`.
pub open spec fn first_named<T: Entity>(records: Seq<T>, wanted: Seq<char>, at: int) -> bool {
    &&& 0 <= at < records.len()
    &&& records[at].label() == wanted
    &&& forall|j: int| 0 <= j < at ==> (#[trigger] records[j]).label() != wanted
}

/// Whether no record is named `wanted`.
pub open spec fn none_named<T: Entity>(records: Seq<T>, wanted: Seq<char>) -> bool {
    forall|j: int| 0 <= j < records.len() ==> (#[trigger] records[j]).label() != wanted
}

/// The record that the name `wanted` resolves to: the first one of that name,
/// in collection order, or `None` where no record has that name.
pub open spec fn resolved<T: Entity>(records: Seq<T>, wanted: Seq<char>) -> Option<T> {
    if exists|at: int| first_named(records, wanted, at) {
        Some(records[choose|at: int| first_named(records, wanted, at)])
    } else {
        None
    }
}

/// The place of the first record named `wanted`, scanning in collection order.
pub fn position<T: Entity>(records: &Vec<T>, wanted: &String) -> (found: Option<usize>)
    ensures
        match found {
            Some(at) => first_named(records@, wanted@, at as int) && resolved(records@, wanted@)
                == Some(records[at as int]),
            None => none_named(records@, wanted@) && resolved(records@, wanted@) is None,
        },
{
    let mut i: usize = 0;
    while i < records.len()
        invariant
            i <= records.len(),
            forall|j: int| 0 <= j < i ==> (#[trigger] records[j]).label() != wanted@,
        decreases records.len() - i,
    {
        if *records[i].name() == *wanted {
            proof {
                let at = i as int;
                assert(first_named(records@, wanted@, at));
                let chosen = choose|at: int| first_named(records@, wanted@, at);
                if chosen < at {
                    assert(records[chosen].label() != wanted@);
                } else if chosen > at {
                    assert(records[at].label() != wanted@);
                }
            }
            return Some(i);
        }
        i = i + 1;
    }
    proof {
        assert forall|at: int| !first_named(records@, wanted@, at) by {
            if 0 <= at < records.len() {
                assert(records[at].label() != wanted@);
            }
        }
    }
    None
}

} // verus!

//! What holds of every document, proved from the definitions of the decoders
//! and the lookups.

use crate::cluster::Cluster;
use crate::cluster::ClusterView;
use crate::context::Context;
use crate::entity::collection_at;
use crate::entity::entries_outcome;
use crate::entity::entry_outcome;
use crate::entity::first_failure;
use crate::entity::first_named;
use crate::entity::none_named;
use crate::entity::resolved;
use crate::entity::Entity;
use crate::errors::missing_file_message;
use crate::errors::ErrorKindView;
use crate::get::bool_at;
use crate::get::mapping_at;
use crate::get::sequence_at;
use crate::get::string_at;
use crate::get::tolerated;
use crate::get::FieldErrorView;
use crate::get::Reason;
use crate::user::User;
use crate::yaml::mapping_field;
use crate::yaml::value_flag;
use crate::yaml::value_mapping;
use crate::Config;
use crate::ConfigView;
use serde_yaml::Mapping;
use serde_yaml::Value;
use vstd::prelude::*;

verus! {

/// Where an element of a collection fails to decode, some element is the
/// first to fail, and it stands at or before that one.
pub proof fn lemma_some_failure_is_first<T: Entity>(key: Seq<char>, entries: Seq<Value>, at: int)
    requires
        0 <= at < entries.len(),
        entry_outcome::<T>(key, entries[at]) is Err,
    ensures
        exists|first: int| first <= at && first_failure::<T>(key, entries, first),
    decreases at,
{
    if forall|j: int| 0 <= j < at ==> (#[trigger] entry_outcome::<T>(key, entries[j])) is Ok {
        assert(first_failure::<T>(key, entries, at));
    } else {
        let earlier = choose|j: int|
            0 <= j < at && !((#[trigger] entry_outcome::<T>(key, entries[j])) is Ok);
        lemma_some_failure_is_first::<T>(key, entries, earlier);
    }
}

/// A collection fails with the failure of its first failing element.
pub proof fn lemma_collection_fails_at_first<T: Entity>(
    key: Seq<char>,
    entries: Seq<Value>,
    at: int,
)
    requires
        first_failure::<T>(key, entries, at),
    ensures
        entries_outcome::<T>(key, entries) == Err::<Seq<T::V>, FieldErrorView>(
            entry_outcome::<T>(key, entries[at])->Err_0,
        ),
{
    let chosen = choose|first: int| first_failure::<T>(key, entries, first);
    if chosen < at {
        assert(entry_outcome::<T>(key, entries[chosen]) is Ok);
    } else if chosen > at {
        assert(entry_outcome::<T>(key, entries[at]) is Ok);
    }
}

/// No partial collections: one element that fails to decode fails the whole
/// collection.
pub proof fn lemma_one_failure_fails_collection<T: Entity>(
    key: Seq<char>,
    entries: Seq<Value>,
    at: int,
)
    requires
        0 <= at < entries.len(),
        entry_outcome::<T>(key, entries[at]) is Err,
    ensures
        entries_outcome::<T>(key, entries) is Err,
{
    lemma_some_failure_is_first::<T>(key, entries, at);
}

/// A collection that decodes has one record for each element of the
/// document's sequence, in the same order: the record at each place is what
/// the element at that place decodes to.
pub proof fn lemma_collection_keeps_order<T: Entity>(
    map: Mapping,
    key: Seq<char>,
    records: Seq<T::V>,
)
    requires
        collection_at::<T>(map, key) == Ok::<Seq<T::V>, FieldErrorView>(records),
    ensures
        sequence_at(map, key) is Ok,
        records.len() == sequence_at(map, key)->Ok_0.len(),
        forall|i: int|
            0 <= i < records.len() ==> (#[trigger] entry_outcome::<T>(
                key,
                sequence_at(map, key)->Ok_0[i],
            )) == Ok::<T::V, FieldErrorView>(records[i]),
{
    let entries = sequence_at(map, key)->Ok_0;
    assert forall|i: int| 0 <= i < entries.len() implies (#[trigger] entry_outcome::<T>(
        key,
        entries[i],
    )) is Ok by {
        if entry_outcome::<T>(key, entries[i]) is Err {
            lemma_one_failure_fails_collection::<T>(key, entries, i);
        }
    }
}

/// A document with N cluster entries, M context entries and K user entries
/// decodes to a configuration with exactly N clusters, M contexts and K users;
/// each stands where its entry stands in the document, and is what that entry
/// decodes to.
pub proof fn lemma_document_keeps_shape(map: Mapping, config: ConfigView)
    requires
        Config::decoded(map) == Ok::<ConfigView, FieldErrorView>(config),
    ensures
        sequence_at(map, "clusters"@) is Ok,
        sequence_at(map, "contexts"@) is Ok,
        sequence_at(map, "users"@) is Ok,
        config.clusters.len() == sequence_at(map, "clusters"@)->Ok_0.len(),
        config.contexts.len() == sequence_at(map, "contexts"@)->Ok_0.len(),
        config.users.len() == sequence_at(map, "users"@)->Ok_0.len(),
        forall|i: int|
            0 <= i < config.clusters.len() ==> (#[trigger] entry_outcome::<Cluster>(
                "clusters"@,
                sequence_at(map, "clusters"@)->Ok_0[i],
            )) == Ok::<ClusterView, FieldErrorView>(config.clusters[i]),
        forall|i: int|
            0 <= i < config.contexts.len() ==> (#[trigger] entry_outcome::<Context>(
                "contexts"@,
                sequence_at(map, "contexts"@)->Ok_0[i],
            )) == Ok::<<Context as View>::V, FieldErrorView>(config.contexts[i]),
        forall|i: int|
            0 <= i < config.users.len() ==> (#[trigger] entry_outcome::<User>(
                "users"@,
                sequence_at(map, "users"@)->Ok_0[i],
            )) == Ok::<<User as View>::V, FieldErrorView>(config.users[i]),
{
    lemma_collection_keeps_order::<Cluster>(map, "clusters"@, config.clusters);
    lemma_collection_keeps_order::<Context>(map, "contexts"@, config.contexts);
    lemma_collection_keeps_order::<User>(map, "users"@, config.users);
}

/// The flag `insecure-skip-tls-verify` of a cluster is `true` exactly where
/// the entry holds the boolean `true` under that key. In particular it is
/// `false` where the entry has no such key.
pub proof fn lemma_skip_tls_defaults_to_false(map: Mapping, cluster: ClusterView)
    requires
        Cluster::decoded(map) == Ok::<ClusterView, FieldErrorView>(cluster),
    ensures
        mapping_at(map, "cluster"@) is Ok,
        cluster.insecure_skip_tls_verify == (bool_at(
            mapping_at(map, "cluster"@)->Ok_0,
            "insecure-skip-tls-verify"@,
        ) == Ok::<bool, FieldErrorView>(true)),
        mapping_field(mapping_at(map, "cluster"@)->Ok_0, "insecure-skip-tls-verify"@) is None
            ==> !cluster.insecure_skip_tls_verify,
        mapping_field(
            mapping_at(map, "cluster"@)->Ok_0,
            "insecure-skip-tls-verify"@,
        ) matches Some(value) && value_flag(value) == Some(true)
            ==> cluster.insecure_skip_tls_verify,
{
}

/// The two certificate fields of a cluster are optional and independent: each
/// is present exactly where the entry holds a string under its own key,
/// whatever the entry holds under the other. A cluster decodes whenever its
/// name, its `cluster` mapping and its server are there, so the absence of
/// both is legal.
pub proof fn lemma_certificate_fields_are_tolerant(map: Mapping)
    ensures
        Cluster::decoded(map) is Ok <==> {
            &&& string_at(map, "name"@) is Ok
            &&& mapping_at(map, "cluster"@) is Ok
            &&& string_at(mapping_at(map, "cluster"@)->Ok_0, "server"@) is Ok
        },
        Cluster::decoded(map) matches Ok(cluster) ==> {
            &&& cluster.certificate_authority == tolerated(
                string_at(mapping_at(map, "cluster"@)->Ok_0, "certificate-authority"@),
            )
            &&& cluster.certificate_authority_data == tolerated(
                string_at(mapping_at(map, "cluster"@)->Ok_0, "certificate-authority-data"@),
            )
        },
{
}

/// A cluster entry that has its name and its `cluster` mapping, and no
/// `server` in it, fails with an error that names `server` as missing.
pub proof fn lemma_cluster_without_server_fails(map: Mapping)
    requires
        string_at(map, "name"@) is Ok,
        mapping_at(map, "cluster"@) is Ok,
        mapping_field(mapping_at(map, "cluster"@)->Ok_0, "server"@) is None,
    ensures
        Cluster::decoded(map) == Err::<ClusterView, FieldErrorView>(
            FieldErrorView { field: "server"@, reason: Reason::Missing },
        ),
{
}

/// An entry without a `name` fails with an error that names `name` as
/// missing, be it a cluster, a context or a user.
pub proof fn lemma_entry_without_name_fails(map: Mapping)
    requires
        mapping_field(map, "name"@) is None,
    ensures
        Cluster::decoded(map) == Err::<ClusterView, FieldErrorView>(
            FieldErrorView { field: "name"@, reason: Reason::Missing },
        ),
        Context::decoded(map) == Err::<<Context as View>::V, FieldErrorView>(
            FieldErrorView { field: "name"@, reason: Reason::Missing },
        ),
        User::decoded(map) == Err::<<User as View>::V, FieldErrorView>(
            FieldErrorView { field: "name"@, reason: Reason::Missing },
        ),
{
}

/// Whether some element of the collection under `key` fails to decode.
pub open spec fn has_failing_entry<T: Entity>(map: Mapping, key: Seq<char>) -> bool {
    &&& sequence_at(map, key) is Ok
    &&& exists|at: int|
        0 <= at < sequence_at(map, key)->Ok_0.len() && (#[trigger] entry_outcome::<T>(
            key,
            sequence_at(map, key)->Ok_0[at],
        )) is Err
}

/// One entry that fails to decode, be it a cluster, a context or a user,
/// fails the whole document, and with the error of a field.
pub proof fn lemma_failing_entry_fails_document(doc: Value)
    requires
        value_mapping(doc) is Some,
        ({
            ||| has_failing_entry::<Cluster>(value_mapping(doc)->Some_0, "clusters"@)
            ||| has_failing_entry::<Context>(value_mapping(doc)->Some_0, "contexts"@)
            ||| has_failing_entry::<User>(value_mapping(doc)->Some_0, "users"@)
        }),
    ensures
        Config::document(doc) matches Err(ErrorKindView::Field(_)),
{
    let map = value_mapping(doc)->Some_0;
    if has_failing_entry::<Cluster>(map, "clusters"@) {
        let entries = sequence_at(map, "clusters"@)->Ok_0;
        let at = choose|at: int|
            0 <= at < entries.len() && (#[trigger] entry_outcome::<Cluster>(
                "clusters"@,
                entries[at],
            )) is Err;
        lemma_one_failure_fails_collection::<Cluster>("clusters"@, entries, at);
    }
    if has_failing_entry::<Context>(map, "contexts"@) {
        let entries = sequence_at(map, "contexts"@)->Ok_0;
        let at = choose|at: int|
            0 <= at < entries.len() && (#[trigger] entry_outcome::<Context>(
                "contexts"@,
                entries[at],
            )) is Err;
        lemma_one_failure_fails_collection::<Context>("contexts"@, entries, at);
    }
    if has_failing_entry::<User>(map, "users"@) {
        let entries = sequence_at(map, "users"@)->Ok_0;
        let at = choose|at: int|
            0 <= at < entries.len() && (#[trigger] entry_outcome::<User>(
                "users"@,
                entries[at],
            )) is Err;
        lemma_one_failure_fails_collection::<User>("users"@, entries, at);
    }
}

/// Where a cluster entry is the first of its collection to fail, the whole
/// document fails with that entry's error: with `server` as missing where
/// the entry lacks its server.
pub proof fn lemma_first_failing_cluster_fails_document(doc: Value, at: int)
    requires
        value_mapping(doc) is Some,
        sequence_at(value_mapping(doc)->Some_0, "clusters"@) is Ok,
        first_failure::<Cluster>(
            "clusters"@,
            sequence_at(value_mapping(doc)->Some_0, "clusters"@)->Ok_0,
            at,
        ),
    ensures
        Config::document(doc) == Err::<ConfigView, ErrorKindView>(
            ErrorKindView::Field(
                entry_outcome::<Cluster>(
                    "clusters"@,
                    sequence_at(value_mapping(doc)->Some_0, "clusters"@)->Ok_0[at],
                )->Err_0,
            ),
        ),
{
    let entries = sequence_at(value_mapping(doc)->Some_0, "clusters"@)->Ok_0;
    lemma_collection_fails_at_first::<Cluster>("clusters"@, entries, at);
}

/// A name resolves to the first record of that name in collection order, and
/// to nothing exactly where no record has that name.
pub proof fn lemma_resolved_is_first_match<T: Entity>(records: Seq<T>, wanted: Seq<char>)
    ensures
        resolved(records, wanted) is None <==> none_named(records, wanted),
        forall|at: int|
            first_named(records, wanted, at) ==> resolved(records, wanted) == Some(records[at]),
        resolved(records, wanted) matches Some(record) ==> record.label() == wanted,
{
    assert forall|at: int| first_named(records, wanted, at) implies resolved(records, wanted)
        == Some(records[at]) by {
        let chosen = choose|first: int| first_named(records, wanted, first);
        if chosen < at {
            assert(records[chosen].label() != wanted);
        } else if chosen > at {
            assert(records[at].label() != wanted);
        }
    }
    if !none_named(records, wanted) {
        let some = choose|j: int| 0 <= j < records.len() && (#[trigger] records[j]).label() == wanted;
        lemma_some_match_is_first(records, wanted, some);
    }
}

/// Where a record has the name `wanted`, some record is the first of that
/// name, and it stands at or before that one.
pub proof fn lemma_some_match_is_first<T: Entity>(records: Seq<T>, wanted: Seq<char>, at: int)
    requires
        0 <= at < records.len(),
        records[at].label() == wanted,
    ensures
        exists|first: int| first <= at && first_named(records, wanted, first),
    decreases at,
{
    if forall|j: int| 0 <= j < at ==> (#[trigger] records[j]).label() != wanted {
        assert(first_named(records, wanted, at));
    } else {
        let earlier = choose|j: int| 0 <= j < at && (#[trigger] records[j]).label() == wanted;
        lemma_some_match_is_first(records, wanted, earlier);
    }
}

/// A file that cannot be read fails the load with an error that holds the
/// path, and the error's message quotes the path letter for letter.
pub proof fn lemma_missing_file_names_path(path: Seq<char>)
    ensures
        Config::loaded(path, None) == Err::<ConfigView, ErrorKindView>(
            ErrorKindView::MissingConfigFile(path),
        ),
        missing_file_message(path).len() == path.len() + 23,
        missing_file_message(path).subrange(22, 22 + path.len() as int) == path,
{
    reveal_strlit("missing config file: '");
    reveal_strlit("'");
    assert(missing_file_message(path).subrange(22, 22 + path.len() as int) =~= path);
}

/// With `KUBECONFIG` set to a path, loading by default is loading that path,
/// whatever `HOME` is.
pub proof fn lemma_kubeconfig_is_loaded_directly(
    path: Seq<char>,
    home: Option<Seq<char>>,
    contents: Option<Seq<char>>,
)
    ensures
        Config::loaded_by_default(Some(path), home, contents) == Config::loaded(path, contents),
{
}

} // verus!

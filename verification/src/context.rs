//! The `Context` entity, its decoder, and the lookups that follow its
//! references.

use crate::cluster::Cluster;
use crate::entity::position;
use crate::entity::resolved;
use crate::entity::copied;
use crate::entity::optional_text;
use crate::entity::Entity;
use crate::get::get_mapping;
use crate::get::get_string;
use crate::get::mapping_at;
use crate::get::outcome;
use crate::get::string_at;
use crate::get::tolerated;
use crate::get::FieldError;
use crate::get::FieldErrorView;
use crate::user::User;
use crate::Config;
use serde_yaml::Mapping;
use vstd::prelude::*;

verus! {

/// A context pairs a user of the `users` collection with a cluster of the
/// `clusters` collection, each by name.
///
/// The document nests a context's settings in a `context` mapping beside its
/// `name`; here they are fields of one flat record.
#[derive(Debug)]
pub struct Context {
    /// The name given to this context by the user.
    pub name: String,
    /// The `name` of the cluster that this context refers to.
    pub cluster: String,
    /// The namespace to use with this context where none is given.
    pub namespace: Option<String>,
    /// The `name` of the user that this context refers to.
    pub user: String,
}

/// A `Context` as a mathematical value.
pub ghost struct ContextView {
    pub name: Seq<char>,
    pub cluster: Seq<char>,
    pub namespace: Option<Seq<char>>,
    pub user: Seq<char>,
}

impl View for Context {
    type V = ContextView;

    open spec fn view(&self) -> ContextView {
        ContextView {
            name: self.name@,
            cluster: self.cluster@,
            namespace: optional_text(self.namespace),
            user: self.user@,
        }
    }
}

impl Clone for Context {
    fn clone(&self) -> (copy: Self)
        ensures
            copy == *self,
    {
        Context {
            name: self.name.clone(),
            cluster: self.cluster.clone(),
            namespace: copied(&self.namespace),
            user: self.user.clone(),
        }
    }
}

impl Context {
    /// The field policy of a context, applied to what the extractor found:
    /// `cluster` and `user` are required, and the failure of the first of them
    /// that fails is the context's failure; `namespace` is optional, so a
    /// failure leaves it absent.
    pub open spec fn assembled(
        name: Seq<char>,
        cluster: Result<Seq<char>, FieldErrorView>,
        user: Result<Seq<char>, FieldErrorView>,
        namespace: Result<Seq<char>, FieldErrorView>,
    ) -> Result<ContextView, FieldErrorView> {
        match cluster {
            Err(e) => Err(e),
            Ok(cluster_name) => match user {
                Err(e) => Err(e),
                Ok(user_name) => Ok(
                    ContextView {
                        name: name,
                        cluster: cluster_name,
                        namespace: tolerated(namespace),
                        user: user_name,
                    },
                ),
            },
        }
    }

    /// Builds a context from its name and the outcome of extracting each inner
    /// field, by the field policy: a failed `cluster` or `user` fails the
    /// context, a failed `namespace` is absent.
    pub fn from_fields(
        name: String,
        cluster: Result<String, FieldError>,
        user: Result<String, FieldError>,
        namespace: Result<String, FieldError>,
    ) -> (result: Result<Context, FieldError>)
        ensures
            outcome(result) == Self::assembled(
                name@,
                outcome(cluster),
                outcome(user),
                outcome(namespace),
            ),
    {
        let cluster = match cluster {
            Ok(cluster) => cluster,
            Err(e) => {
                return Err(e);
            },
        };
        let user = match user {
            Ok(user) => user,
            Err(e) => {
                return Err(e);
            },
        };
        Ok(Context { name, cluster, namespace: namespace.ok(), user })
    }

    /// The cluster that this context refers to: the first cluster of `config`,
    /// in collection order, whose name is this context's `cluster`. `None`
    /// where no cluster has that name.
    pub fn get_cluster(&self, config: &Config) -> (found: Option<Cluster>)
        ensures
            found == resolved(config.clusters@, self.cluster@),
    {
        match position(&config.clusters, &self.cluster) {
            Some(at) => Some(config.clusters[at].clone()),
            None => None,
        }
    }

    /// The user that this context refers to: the first user of `config`, in
    /// collection order, whose name is this context's `user`. `None` where no
    /// user has that name.
    pub fn get_user(&self, config: &Config) -> (found: Option<User>)
        ensures
            found == resolved(config.users@, self.user@),
    {
        match position(&config.users, &self.user) {
            Some(at) => Some(config.users[at].clone()),
            None => None,
        }
    }
}

impl Entity for Context {
    /// The context that an entry of the `contexts` collection denotes, or the
    /// first required field that it lacks: `name`, then the `context` mapping,
    /// then `cluster` and `user` inside it.
    open spec fn decoded(map: Mapping) -> Result<ContextView, FieldErrorView> {
        match string_at(map, "name"@) {
            Err(e) => Err(e),
            Ok(name) => match mapping_at(map, "context"@) {
                Err(e) => Err(e),
                Ok(inner) => Self::assembled(
                    name,
                    string_at(inner, "cluster"@),
                    string_at(inner, "user"@),
                    string_at(inner, "namespace"@),
                ),
            },
        }
    }

    open spec fn label(&self) -> Seq<char> {
        self.name@
    }

    /// Decodes one entry of the `contexts` collection.
    fn deserialize(map: Mapping) -> (result: Result<Context, FieldError>) {
        let name = match get_string(&map, "name") {
            Ok(name) => name,
            Err(e) => {
                return Err(e);
            },
        };
        let context = match get_mapping(map, "context") {
            Ok(inner) => inner,
            Err(e) => {
                return Err(e);
            },
        };
        Context::from_fields(
            name,
            get_string(&context, "cluster"),
            get_string(&context, "user"),
            get_string(&context, "namespace"),
        )
    }

    fn name(&self) -> (name: &String) {
        &self.name
    }
}

} // verus!

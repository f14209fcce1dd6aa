//! Reads a kubeconfig document into typed clusters, users and contexts, and
//! resolves the references between them by name.
//!
//! The document is YAML. Most of its fields are optional, and an optional
//! field that is missing or malformed is read as absent; only the few fields
//! that everything else hangs on (`name` of every entry, `server` of a
//! cluster, `cluster` and `user` of a context) fail the decode.

pub mod cluster;
pub mod context;
pub mod entity;
pub mod errors;
pub mod get;
pub mod laws;
pub mod user;
pub mod yaml;

pub use crate::cluster::Cluster;
pub use crate::context::Context;
pub use crate::user::User;

use crate::cluster::ClusterView;
use crate::context::ContextView;
use crate::entity::collection_at;
use crate::entity::get_collection;
use crate::entity::optional_text;
use crate::entity::position;
use crate::entity::resolved;
use crate::entity::views;
use crate::errors::result_view;
use crate::errors::ErrorKind;
use crate::errors::ErrorKindView;
use crate::get::get_mapping;
use crate::get::get_string;
use crate::get::mapping_at;
use crate::get::outcome;
use crate::get::string_at;
use crate::get::tolerated;
use crate::get::FieldError;
use crate::get::FieldErrorView;
use crate::user::UserView;
use crate::yaml::copy_of;
use crate::yaml::mapping_of;
use crate::yaml::parse;
use crate::yaml::value_mapping;
use crate::yaml::yaml_document;
use serde_yaml::Mapping;
use serde_yaml::Value;
use vstd::prelude::*;
use vstd::string::StringExecFns;

verus! {

/// The whole configuration: the three collections and the document's scalar
/// fields.
#[derive(Debug, Clone)]
pub struct Config {
    /// The name of the context that is active. The context itself is found by
    /// `get_current_context`.
    pub current_context: Option<String>,
    /// The document's `preferences`, passed through as they are.
    pub preferences: Option<Mapping>,
    /// The clusters, in document order.
    pub clusters: Vec<Cluster>,
    /// The contexts, in document order.
    pub contexts: Vec<Context>,
    /// The users, in document order.
    pub users: Vec<User>,
    /// The document's `apiVersion`, typically "v1". Taken as it is.
    pub api_version: Option<String>,
    /// The document's `kind`, typically "Config". Taken as it is.
    pub kind: Option<String>,
}

/// A `Config` as a mathematical value.
pub ghost struct ConfigView {
    pub current_context: Option<Seq<char>>,
    pub preferences: Option<Mapping>,
    pub clusters: Seq<ClusterView>,
    pub contexts: Seq<ContextView>,
    pub users: Seq<UserView>,
    pub api_version: Option<Seq<char>>,
    pub kind: Option<Seq<char>>,
}

impl View for Config {
    type V = ConfigView;

    open spec fn view(&self) -> ConfigView {
        ConfigView {
            current_context: optional_text(self.current_context),
            preferences: self.preferences,
            clusters: views(self.clusters@),
            contexts: views(self.contexts@),
            users: views(self.users@),
            api_version: optional_text(self.api_version),
            kind: optional_text(self.kind),
        }
    }
}

/// The path of the configuration file where none is given: the value of
/// `KUBECONFIG` where that is set, else `.kube/config` under the value of
/// `HOME`.
pub open spec fn default_path_of(kubeconfig: Option<Seq<char>>, home: Option<Seq<char>>) -> Result<
    Seq<char>,
    ErrorKindView,
> {
    match kubeconfig {
        Some(path) => Ok(path),
        None => match home {
            Some(directory) => Ok(directory + "/.kube/config"@),
            None => Err(ErrorKindView::Msg("Neither $KUBECONFIG nor $HOME are defined"@)),
        },
    }
}

/// The text of an optional string slice.
pub open spec fn optional_str(text: Option<&str>) -> Option<Seq<char>> {
    match text {
        Some(s) => Some(s@),
        None => None,
    }
}

impl Config {
    /// The configuration that the top-level mapping of a document denotes, or
    /// the first required field that fails: the collections are decoded in
    /// the order `clusters`, `contexts`, `users`, each entry in document
    /// order; the scalar fields and `preferences` are optional.
    pub open spec fn decoded(map: Mapping) -> Result<ConfigView, FieldErrorView> {
        match collection_at::<Cluster>(map, "clusters"@) {
            Err(e) => Err(e),
            Ok(clusters) => match collection_at::<Context>(map, "contexts"@) {
                Err(e) => Err(e),
                Ok(contexts) => match collection_at::<User>(map, "users"@) {
                    Err(e) => Err(e),
                    Ok(users) => Ok(
                        ConfigView {
                            current_context: tolerated(string_at(map, "current-context"@)),
                            preferences: tolerated(mapping_at(map, "preferences"@)),
                            clusters: clusters,
                            contexts: contexts,
                            users: users,
                            api_version: tolerated(string_at(map, "apiVersion"@)),
                            kind: tolerated(string_at(map, "kind"@)),
                        },
                    ),
                },
            },
        }
    }

    /// The configuration that a document denotes: that of its top-level
    /// mapping, and a failure where the document is no mapping.
    pub open spec fn document(doc: Value) -> Result<ConfigView, ErrorKindView> {
        match value_mapping(doc) {
            None => Err(ErrorKindView::NotMapping),
            Some(map) => match Self::decoded(map) {
                Ok(config) => Ok(config),
                Err(e) => Err(ErrorKindView::Field(e)),
            },
        }
    }

    /// The configuration that a text denotes: that of its document, and the
    /// parser's error where the text is not a well-formed document.
    pub open spec fn parsed(text: Seq<char>) -> Result<ConfigView, ErrorKindView> {
        match yaml_document(text) {
            Err(e) => Err(ErrorKindView::Yaml(e)),
            Ok(doc) => Self::document(doc),
        }
    }

    /// The configuration in the file at `path`, given what reading the file
    /// gave: that of its text, and a failure that holds the path where the
    /// file could not be read.
    pub open spec fn loaded(path: Seq<char>, contents: Option<Seq<char>>) -> Result<
        ConfigView,
        ErrorKindView,
    > {
        match contents {
            None => Err(ErrorKindView::MissingConfigFile(path)),
            Some(text) => Self::parsed(text),
        }
    }

    /// The configuration of the user's environment: that of the file at the
    /// default path, and a failure where the environment names no path.
    pub open spec fn loaded_by_default(
        kubeconfig: Option<Seq<char>>,
        home: Option<Seq<char>>,
        contents: Option<Seq<char>>,
    ) -> Result<ConfigView, ErrorKindView> {
        match default_path_of(kubeconfig, home) {
            Err(e) => Err(e),
            Ok(path) => Self::loaded(path, contents),
        }
    }

    /// Decodes the top-level mapping of a document.
    pub fn deserialize(map: Mapping) -> (result: Result<Config, FieldError>)
        ensures
            outcome(result) == Self::decoded(map),
    {
        let clusters = match get_collection::<Cluster>(&map, "clusters") {
            Ok(clusters) => clusters,
            Err(e) => {
                return Err(e);
            },
        };
        let contexts = match get_collection::<Context>(&map, "contexts") {
            Ok(contexts) => contexts,
            Err(e) => {
                return Err(e);
            },
        };
        let users = match get_collection::<User>(&map, "users") {
            Ok(users) => users,
            Err(e) => {
                return Err(e);
            },
        };
        let current_context = get_string(&map, "current-context").ok();
        let api_version = get_string(&map, "apiVersion").ok();
        let kind = get_string(&map, "kind").ok();
        let preferences = get_mapping(map, "preferences").ok();
        Ok(Config { current_context, preferences, clusters, contexts, users, api_version, kind })
    }

    /// Decodes a document that has already been parsed.
    pub fn from_value(doc: &Value) -> (result: Result<Config, ErrorKind>)
        ensures
            result_view(result) == Self::document(*doc),
    {
        match mapping_of(doc) {
            None => Err(ErrorKind::NotMapping),
            Some(map) => match Config::deserialize(copy_of(map)) {
                Ok(config) => Ok(config),
                Err(e) => Err(ErrorKind::Field(e)),
            },
        }
    }

    /// Parses a text and decodes the document that it denotes. Fails with
    /// `ErrorKind::Yaml` exactly where the text is not a well-formed document.
    pub fn from_str(text: &str) -> (result: Result<Config, ErrorKind>)
        ensures
            result_view(result) == Self::parsed(text@),
    {
        match parse(text) {
            Ok(doc) => Config::from_value(&doc),
            Err(e) => Err(ErrorKind::Yaml(e)),
        }
    }

    /// The configuration in the file at `path`, given what reading that file
    /// gave: its text, or `None` where it could not be read. An unreadable
    /// file fails with `ErrorKind::MissingConfigFile`, which holds the path.
    pub fn load(path: &str, contents: Option<&str>) -> (result: Result<Config, ErrorKind>)
        ensures
            result_view(result) == Self::loaded(path@, optional_str(contents)),
    {
        match contents {
            None => Err(ErrorKind::MissingConfigFile(String::from_str(path))),
            Some(text) => Config::from_str(text),
        }
    }

    /// The path from which the configuration is loaded where none is given,
    /// from the values of the environment variables `KUBECONFIG` and `HOME`
    /// (`None` for one that is not set): the value of `KUBECONFIG` where it
    /// is set, else `.kube/config` under the value of `HOME`.
    pub fn default_path(kubeconfig: Option<&str>, home: Option<&str>) -> (result: Result<
        String,
        ErrorKind,
    >)
        ensures
            result_view(result) == default_path_of(optional_str(kubeconfig), optional_str(home)),
    {
        match kubeconfig {
            Some(path) => Ok(String::from_str(path)),
            None => match home {
                Some(directory) => {
                    let mut path = String::from_str(directory);
                    path.append("/.kube/config");
                    Ok(path)
                },
                None => Err(
                    ErrorKind::Msg(String::from_str("Neither $KUBECONFIG nor $HOME are defined")),
                ),
            },
        }
    }

    /// The configuration of the user's environment, given the values of
    /// `KUBECONFIG` and `HOME` and what reading the file at
    /// `default_path(kubeconfig, home)` gave. Where the environment names no
    /// path, `contents` is not looked at.
    pub fn load_default(
        kubeconfig: Option<&str>,
        home: Option<&str>,
        contents: Option<&str>,
    ) -> (result: Result<Config, ErrorKind>)
        ensures
            result_view(result) == Self::loaded_by_default(
                optional_str(kubeconfig),
                optional_str(home),
                optional_str(contents),
            ),
    {
        match Config::default_path(kubeconfig, home) {
            Ok(path) => Config::load(path.as_str(), contents),
            Err(e) => Err(e),
        }
    }

    /// The context that is active: the first context, in collection order,
    /// whose name is `current_context`. `None` where `current_context` is not
    /// set or no context has that name.
    pub fn get_current_context(&self) -> (found: Option<&Context>)
        ensures
            match self.current_context {
                None => found is None,
                Some(name) => match found {
                    Some(context) => resolved(self.contexts@, name@) == Some(*context),
                    None => resolved(self.contexts@, name@) is None,
                },
            },
    {
        match &self.current_context {
            None => None,
            Some(name) => match position(&self.contexts, name) {
                Some(at) => Some(&self.contexts[at]),
                None => None,
            },
        }
    }
}

} // verus!

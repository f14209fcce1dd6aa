//! The `Cluster` entity and its decoder.

use crate::get::get_bool;
use crate::get::get_mapping;
use crate::get::get_string;
use crate::entity::copied;
use crate::entity::optional_text;
use crate::entity::Entity;
use crate::get::bool_at;
use crate::get::mapping_at;
use crate::get::outcome;
use crate::get::string_at;
use crate::get::tolerated;
use crate::get::FieldError;
use crate::get::FieldErrorView;
use serde_yaml::Mapping;
use vstd::prelude::*;

verus! {

/// A cluster that the user knows how to connect to.
///
/// The document nests a cluster's settings in a `cluster` mapping beside its
/// `name`; here they are fields of one flat record.
#[derive(Debug)]
pub struct Cluster {
    /// The name given to the cluster by the user.
    pub name: String,
    /// The address of the server, protocol included.
    pub server: String,
    /// The path of the file that holds the certificate authority.
    pub certificate_authority: Option<String>,
    /// The certificate authority itself, base64 encoded.
    pub certificate_authority_data: Option<String>,
    /// Whether the user agent is to skip the check of the server's certificate.
    pub insecure_skip_tls_verify: bool,
}

/// A `Cluster` as a mathematical value.
pub ghost struct ClusterView {
    pub name: Seq<char>,
    pub server: Seq<char>,
    pub certificate_authority: Option<Seq<char>>,
    pub certificate_authority_data: Option<Seq<char>>,
    pub insecure_skip_tls_verify: bool,
}

impl View for Cluster {
    type V = ClusterView;

    open spec fn view(&self) -> ClusterView {
        ClusterView {
            name: self.name@,
            server: self.server@,
            certificate_authority: optional_text(self.certificate_authority),
            certificate_authority_data: optional_text(self.certificate_authority_data),
            insecure_skip_tls_verify: self.insecure_skip_tls_verify,
        }
    }
}

impl Clone for Cluster {
    fn clone(&self) -> (copy: Self)
        ensures
            copy == *self,
    {
        Cluster {
            name: self.name.clone(),
            server: self.server.clone(),
            certificate_authority: copied(&self.certificate_authority),
            certificate_authority_data: copied(&self.certificate_authority_data),
            insecure_skip_tls_verify: self.insecure_skip_tls_verify,
        }
    }
}

impl Cluster {
    /// The field policy of a cluster, applied to what the extractor found:
    /// `server` is required, so its failure is the cluster's failure; the two
    /// certificate fields are optional, so a failure leaves them absent; the
    /// flag falls back to `false`.
    pub open spec fn assembled(
        name: Seq<char>,
        server: Result<Seq<char>, FieldErrorView>,
        certificate_authority: Result<Seq<char>, FieldErrorView>,
        certificate_authority_data: Result<Seq<char>, FieldErrorView>,
        insecure_skip_tls_verify: Result<bool, FieldErrorView>,
    ) -> Result<ClusterView, FieldErrorView> {
        match server {
            Err(e) => Err(e),
            Ok(address) => Ok(
                ClusterView {
                    name: name,
                    server: address,
                    certificate_authority: tolerated(certificate_authority),
                    certificate_authority_data: tolerated(certificate_authority_data),
                    insecure_skip_tls_verify: match insecure_skip_tls_verify {
                        Ok(flag) => flag,
                        Err(_) => false,
                    },
                },
            ),
        }
    }

    /// Builds a cluster from its name and the outcome of extracting each inner
    /// field, by the field policy: a failed `server` fails the cluster, a
    /// failed optional field is absent, a failed flag is `false`.
    pub fn from_fields(
        name: String,
        server: Result<String, FieldError>,
        certificate_authority: Result<String, FieldError>,
        certificate_authority_data: Result<String, FieldError>,
        insecure_skip_tls_verify: Result<bool, FieldError>,
    ) -> (result: Result<Cluster, FieldError>)
        ensures
            outcome(result) == Self::assembled(
                name@,
                outcome(server),
                outcome(certificate_authority),
                outcome(certificate_authority_data),
                outcome(insecure_skip_tls_verify),
            ),
    {
        match server {
            Err(e) => Err(e),
            Ok(address) => Ok(
                Cluster {
                    name,
                    server: address,
                    certificate_authority: certificate_authority.ok(),
                    certificate_authority_data: certificate_authority_data.ok(),
                    insecure_skip_tls_verify: match insecure_skip_tls_verify {
                        Ok(flag) => flag,
                        Err(_) => false,
                    },
                },
            ),
        }
    }
}

impl Entity for Cluster {
    /// The cluster that an entry of the `clusters` collection denotes, or the
    /// first required field that it lacks: `name`, then the `cluster` mapping,
    /// then `server` inside it.
    open spec fn decoded(map: Mapping) -> Result<ClusterView, FieldErrorView> {
        match string_at(map, "name"@) {
            Err(e) => Err(e),
            Ok(name) => match mapping_at(map, "cluster"@) {
                Err(e) => Err(e),
                Ok(inner) => Self::assembled(
                    name,
                    string_at(inner, "server"@),
                    string_at(inner, "certificate-authority"@),
                    string_at(inner, "certificate-authority-data"@),
                    bool_at(inner, "insecure-skip-tls-verify"@),
                ),
            },
        }
    }

    open spec fn label(&self) -> Seq<char> {
        self.name@
    }

    /// Decodes one entry of the `clusters` collection.
    fn deserialize(map: Mapping) -> (result: Result<Cluster, FieldError>)
    {
        let name = match get_string(&map, "name") {
            Ok(name) => name,
            Err(e) => { return Err(e); },
        };
        let cluster = match get_mapping(map, "cluster") {
            Ok(inner) => inner,
            Err(e) => { return Err(e); },
        };
        Cluster::from_fields(
            name,
            get_string(&cluster, "server"),
            get_string(&cluster, "certificate-authority"),
            get_string(&cluster, "certificate-authority-data"),
            get_bool(&cluster, "insecure-skip-tls-verify"),
        )
    }

    fn name(&self) -> (name: &String) {
        &self.name
    }
}

} // verus!

//! The `User` entity and its decoder.

use crate::entity::copied;
use crate::entity::optional_text;
use crate::entity::Entity;
use crate::get::get_mapping;
use crate::get::get_string;
use crate::get::mapping_at;
use crate::get::outcome;
use crate::get::string_at;
use crate::get::tolerated;
use crate::get::FieldError;
use crate::get::FieldErrorView;
use serde_yaml::Mapping;
use vstd::prelude::*;

verus! {

/// A user that can log in to one of the clusters. Which user goes with which
/// cluster is said by the contexts.
///
/// The document nests a user's settings in a `user` mapping beside its `name`;
/// here they are fields of one flat record. The ways to authenticate do not
/// exclude each other: any of the fields may be present together.
#[derive(Debug)]
pub struct User {
    /// The name given to this user.
    pub name: String,
    /// A bearer token.
    pub token: Option<String>,
    /// The name for basic authentication.
    pub username: Option<String>,
    /// The password for basic authentication.
    pub password: Option<String>,
    /// The path of the file that holds the client certificate.
    pub client_certificate: Option<String>,
    /// The client certificate itself, base64 encoded.
    pub client_certificate_data: Option<String>,
    /// The path of the file that holds the client key.
    pub client_key: Option<String>,
    /// The client key itself, base64 encoded.
    pub client_key_data: Option<String>,
}

/// A `User` as a mathematical value.
pub ghost struct UserView {
    pub name: Seq<char>,
    pub token: Option<Seq<char>>,
    pub username: Option<Seq<char>>,
    pub password: Option<Seq<char>>,
    pub client_certificate: Option<Seq<char>>,
    pub client_certificate_data: Option<Seq<char>>,
    pub client_key: Option<Seq<char>>,
    pub client_key_data: Option<Seq<char>>,
}

impl View for User {
    type V = UserView;

    open spec fn view(&self) -> UserView {
        UserView {
            name: self.name@,
            token: optional_text(self.token),
            username: optional_text(self.username),
            password: optional_text(self.password),
            client_certificate: optional_text(self.client_certificate),
            client_certificate_data: optional_text(self.client_certificate_data),
            client_key: optional_text(self.client_key),
            client_key_data: optional_text(self.client_key_data),
        }
    }
}

impl Clone for User {
    fn clone(&self) -> (copy: Self)
        ensures
            copy == *self,
    {
        User {
            name: self.name.clone(),
            token: copied(&self.token),
            username: copied(&self.username),
            password: copied(&self.password),
            client_certificate: copied(&self.client_certificate),
            client_certificate_data: copied(&self.client_certificate_data),
            client_key: copied(&self.client_key),
            client_key_data: copied(&self.client_key_data),
        }
    }
}

impl User {
    /// The field policy of a user, applied to what the extractor found: every
    /// inner field is optional, so a failure leaves it absent.
    pub open spec fn assembled(
        name: Seq<char>,
        token: Result<Seq<char>, FieldErrorView>,
        username: Result<Seq<char>, FieldErrorView>,
        password: Result<Seq<char>, FieldErrorView>,
        client_certificate: Result<Seq<char>, FieldErrorView>,
        client_certificate_data: Result<Seq<char>, FieldErrorView>,
        client_key: Result<Seq<char>, FieldErrorView>,
        client_key_data: Result<Seq<char>, FieldErrorView>,
    ) -> UserView {
        UserView {
            name: name,
            token: tolerated(token),
            username: tolerated(username),
            password: tolerated(password),
            client_certificate: tolerated(client_certificate),
            client_certificate_data: tolerated(client_certificate_data),
            client_key: tolerated(client_key),
            client_key_data: tolerated(client_key_data),
        }
    }

    /// Builds a user from its name and the outcome of extracting each inner
    /// field, by the field policy: a failed field is absent.
    pub fn from_fields(
        name: String,
        token: Result<String, FieldError>,
        username: Result<String, FieldError>,
        password: Result<String, FieldError>,
        client_certificate: Result<String, FieldError>,
        client_certificate_data: Result<String, FieldError>,
        client_key: Result<String, FieldError>,
        client_key_data: Result<String, FieldError>,
    ) -> (user: User)
        ensures
            user@ == Self::assembled(
                name@,
                outcome(token),
                outcome(username),
                outcome(password),
                outcome(client_certificate),
                outcome(client_certificate_data),
                outcome(client_key),
                outcome(client_key_data),
            ),
    {
        User {
            name,
            token: token.ok(),
            username: username.ok(),
            password: password.ok(),
            client_certificate: client_certificate.ok(),
            client_certificate_data: client_certificate_data.ok(),
            client_key: client_key.ok(),
            client_key_data: client_key_data.ok(),
        }
    }
}

impl Entity for User {
    /// The user that an entry of the `users` collection denotes, or the first
    /// required field that it lacks: `name`, then the `user` mapping.
    open spec fn decoded(map: Mapping) -> Result<UserView, FieldErrorView> {
        match string_at(map, "name"@) {
            Err(e) => Err(e),
            Ok(name) => match mapping_at(map, "user"@) {
                Err(e) => Err(e),
                Ok(inner) => Ok(
                    Self::assembled(
                        name,
                        string_at(inner, "token"@),
                        string_at(inner, "username"@),
                        string_at(inner, "password"@),
                        string_at(inner, "client-certificate"@),
                        string_at(inner, "client-certificate-data"@),
                        string_at(inner, "client-key"@),
                        string_at(inner, "client-key-data"@),
                    ),
                ),
            },
        }
    }

    open spec fn label(&self) -> Seq<char> {
        self.name@
    }

    /// Decodes one entry of the `users` collection.
    fn deserialize(map: Mapping) -> (result: Result<User, FieldError>) {
        let name = match get_string(&map, "name") {
            Ok(name) => name,
            Err(e) => {
                return Err(e);
            },
        };
        let user = match get_mapping(map, "user") {
            Ok(inner) => inner,
            Err(e) => {
                return Err(e);
            },
        };
        Ok(
            User::from_fields(
                name,
                get_string(&user, "token"),
                get_string(&user, "username"),
                get_string(&user, "password"),
                get_string(&user, "client-certificate"),
                get_string(&user, "client-certificate-data"),
                get_string(&user, "client-key"),
                get_string(&user, "client-key-data"),
            ),
        )
    }

    fn name(&self) -> (name: &String) {
        &self.name
    }
}

} // verus!

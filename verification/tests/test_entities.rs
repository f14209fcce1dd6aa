use kube_conf::entity::decode_entries;
use kube_conf::entity::get_collection;
use kube_conf::entity::position;
use kube_conf::entity::Entity;
use kube_conf::get::FieldError;
use kube_conf::get::Reason;
use kube_conf::Cluster;
use kube_conf::Context;
use kube_conf::User;
use serde_yaml::Mapping;
use serde_yaml::Value;

fn mapping(text: &str) -> Mapping {
    serde_yaml::from_str(text).unwrap()
}

fn value(text: &str) -> Value {
    serde_yaml::from_str(text).unwrap()
}

fn failure(field: &str, reason: Reason) -> FieldError {
    FieldError { field: field.to_string(), reason }
}

fn missing(field: &str) -> Result<String, FieldError> {
    Err(failure(field, Reason::Missing))
}

fn text(s: &str) -> Result<String, FieldError> {
    Ok(s.to_string())
}

#[test]
fn cluster_flag_defaults_to_false() {
    let cluster =
        Cluster::deserialize(mapping("name: a\ncluster:\n  server: https://1.2.3.4\n")).unwrap();
    assert_eq!(cluster.name, "a");
    assert_eq!(cluster.server, "https://1.2.3.4");
    assert_eq!(cluster.insecure_skip_tls_verify, false);
    assert_eq!(cluster.certificate_authority, None);
    assert_eq!(cluster.certificate_authority_data, None);
}

#[test]
fn cluster_flag_set_to_true_is_true() {
    let cluster = Cluster::deserialize(mapping(
        "name: a\ncluster:\n  server: s\n  insecure-skip-tls-verify: true\n",
    ))
    .unwrap();
    assert_eq!(cluster.insecure_skip_tls_verify, true);
}

#[test]
fn cluster_flag_set_to_false_is_false() {
    let cluster = Cluster::deserialize(mapping(
        "name: a\ncluster:\n  server: s\n  insecure-skip-tls-verify: false\n",
    ))
    .unwrap();
    assert_eq!(cluster.insecure_skip_tls_verify, false);
}

#[test]
fn cluster_flag_of_the_wrong_type_is_false() {
    let cluster = Cluster::deserialize(mapping(
        "name: a\ncluster:\n  server: s\n  insecure-skip-tls-verify: 'true'\n",
    ))
    .unwrap();
    assert_eq!(cluster.insecure_skip_tls_verify, false);
}

#[test]
fn cluster_certificate_path_without_data() {
    let cluster = Cluster::deserialize(mapping(
        "name: a\ncluster:\n  server: s\n  certificate-authority: fake-ca-file\n",
    ))
    .unwrap();
    assert_eq!(cluster.certificate_authority, Some("fake-ca-file".to_string()));
    assert_eq!(cluster.certificate_authority_data, None);
}

#[test]
fn cluster_certificate_data_without_path() {
    let cluster = Cluster::deserialize(mapping(
        "name: a\ncluster:\n  server: s\n  certificate-authority-data: Zm9v\n",
    ))
    .unwrap();
    assert_eq!(cluster.certificate_authority, None);
    assert_eq!(cluster.certificate_authority_data, Some("Zm9v".to_string()));
}

#[test]
fn cluster_certificate_path_and_data_together() {
    let cluster = Cluster::deserialize(mapping(
        "name: a\ncluster:\n  server: s\n  certificate-authority: f\n  certificate-authority-data: Zm9v\n",
    ))
    .unwrap();
    assert_eq!(cluster.certificate_authority, Some("f".to_string()));
    assert_eq!(cluster.certificate_authority_data, Some("Zm9v".to_string()));
}

#[test]
fn cluster_malformed_optional_field_is_absent() {
    let cluster = Cluster::deserialize(mapping(
        "name: a\ncluster:\n  server: s\n  certificate-authority: [1, 2]\n  certificate-authority-data: 7\n",
    ))
    .unwrap();
    assert_eq!(cluster.certificate_authority, None);
    assert_eq!(cluster.certificate_authority_data, None);
}

#[test]
fn cluster_without_server_fails() {
    let result = Cluster::deserialize(mapping("name: a\ncluster:\n  certificate-authority: f\n"));
    assert_eq!(result.unwrap_err(), failure("server", Reason::Missing));
}

#[test]
fn cluster_with_mistyped_server_fails() {
    let result = Cluster::deserialize(mapping("name: a\ncluster:\n  server: 1234\n"));
    assert_eq!(result.unwrap_err(), failure("server", Reason::WrongType));
}

#[test]
fn cluster_without_name_fails() {
    let result = Cluster::deserialize(mapping("cluster:\n  server: s\n"));
    assert_eq!(result.unwrap_err(), failure("name", Reason::Missing));
}

#[test]
fn cluster_with_mistyped_name_fails() {
    let result = Cluster::deserialize(mapping("name: true\ncluster:\n  server: s\n"));
    assert_eq!(result.unwrap_err(), failure("name", Reason::WrongType));
}

#[test]
fn cluster_without_inner_mapping_fails() {
    let result = Cluster::deserialize(mapping("name: a\nserver: s\n"));
    assert_eq!(result.unwrap_err(), failure("cluster", Reason::Missing));
    let result = Cluster::deserialize(mapping("name: a\ncluster: s\n"));
    assert_eq!(result.unwrap_err(), failure("cluster", Reason::WrongType));
}

#[test]
fn cluster_name_is_checked_before_the_inner_mapping() {
    let result = Cluster::deserialize(mapping("other: a\n"));
    assert_eq!(result.unwrap_err(), failure("name", Reason::Missing));
}

#[test]
fn cluster_from_fields_applies_the_policy() {
    let cluster = Cluster::from_fields(
        "a".to_string(),
        text("s"),
        missing("certificate-authority"),
        text("Zm9v"),
        Err(failure("insecure-skip-tls-verify", Reason::WrongType)),
    )
    .unwrap();
    assert_eq!(cluster.name, "a");
    assert_eq!(cluster.server, "s");
    assert_eq!(cluster.certificate_authority, None);
    assert_eq!(cluster.certificate_authority_data, Some("Zm9v".to_string()));
    assert_eq!(cluster.insecure_skip_tls_verify, false);

    let cluster =
        Cluster::from_fields("a".to_string(), text("s"), text("f"), missing("x"), Ok(true))
            .unwrap();
    assert_eq!(cluster.certificate_authority, Some("f".to_string()));
    assert_eq!(cluster.insecure_skip_tls_verify, true);

    let failed =
        Cluster::from_fields("a".to_string(), missing("server"), text("f"), text("d"), Ok(true));
    assert_eq!(failed.unwrap_err(), failure("server", Reason::Missing));
}

#[test]
fn cluster_clone_keeps_every_field() {
    let cluster = Cluster::deserialize(mapping(
        "name: a\ncluster:\n  server: s\n  certificate-authority: f\n  insecure-skip-tls-verify: true\n",
    ))
    .unwrap();
    let copy = cluster.clone();
    assert_eq!(copy.name, "a");
    assert_eq!(copy.server, "s");
    assert_eq!(copy.certificate_authority, Some("f".to_string()));
    assert_eq!(copy.certificate_authority_data, None);
    assert_eq!(copy.insecure_skip_tls_verify, true);
}

#[test]
fn context_decodes_its_fields() {
    let context = Context::deserialize(mapping(
        "name: dev-frontend\ncontext:\n  cluster: development\n  user: developer\n  namespace: frontend\n",
    ))
    .unwrap();
    assert_eq!(context.name, "dev-frontend");
    assert_eq!(context.cluster, "development");
    assert_eq!(context.user, "developer");
    assert_eq!(context.namespace, Some("frontend".to_string()));
}

#[test]
fn context_namespace_is_optional() {
    let context =
        Context::deserialize(mapping("name: c\ncontext:\n  cluster: a\n  user: u\n")).unwrap();
    assert_eq!(context.namespace, None);
    let context = Context::deserialize(mapping(
        "name: c\ncontext:\n  cluster: a\n  user: u\n  namespace: 12\n",
    ))
    .unwrap();
    assert_eq!(context.namespace, None);
}

#[test]
fn context_without_name_fails() {
    let result = Context::deserialize(mapping("context:\n  cluster: a\n  user: u\n"));
    assert_eq!(result.unwrap_err(), failure("name", Reason::Missing));
}

#[test]
fn context_without_cluster_or_user_fails() {
    let result = Context::deserialize(mapping("name: c\ncontext:\n  user: u\n"));
    assert_eq!(result.unwrap_err(), failure("cluster", Reason::Missing));
    let result = Context::deserialize(mapping("name: c\ncontext:\n  cluster: a\n"));
    assert_eq!(result.unwrap_err(), failure("user", Reason::Missing));
    let result = Context::deserialize(mapping("name: c\ncontext:\n  namespace: n\n"));
    assert_eq!(result.unwrap_err(), failure("cluster", Reason::Missing));
    let result = Context::deserialize(mapping("name: c\ncontext:\n  cluster: a\n  user: [u]\n"));
    assert_eq!(result.unwrap_err(), failure("user", Reason::WrongType));
}

#[test]
fn context_without_inner_mapping_fails() {
    let result = Context::deserialize(mapping("name: c\n"));
    assert_eq!(result.unwrap_err(), failure("context", Reason::Missing));
}

#[test]
fn context_from_fields_applies_the_policy() {
    let context =
        Context::from_fields("c".to_string(), text("a"), text("u"), missing("namespace")).unwrap();
    assert_eq!(context.name, "c");
    assert_eq!(context.cluster, "a");
    assert_eq!(context.user, "u");
    assert_eq!(context.namespace, None);
    let failed =
        Context::from_fields("c".to_string(), missing("cluster"), missing("user"), text("n"));
    assert_eq!(failed.unwrap_err(), failure("cluster", Reason::Missing));
    let failed = Context::from_fields("c".to_string(), text("a"), missing("user"), text("n"));
    assert_eq!(failed.unwrap_err(), failure("user", Reason::Missing));
}

#[test]
fn user_decodes_its_fields() {
    let user = User::deserialize(mapping(
        "name: u\nuser:\n  token: t\n  username: n\n  password: p\n  client-certificate: c\n  client-certificate-data: cd\n  client-key: k\n  client-key-data: kd\n",
    ))
    .unwrap();
    assert_eq!(user.name, "u");
    assert_eq!(user.token, Some("t".to_string()));
    assert_eq!(user.username, Some("n".to_string()));
    assert_eq!(user.password, Some("p".to_string()));
    assert_eq!(user.client_certificate, Some("c".to_string()));
    assert_eq!(user.client_certificate_data, Some("cd".to_string()));
    assert_eq!(user.client_key, Some("k".to_string()));
    assert_eq!(user.client_key_data, Some("kd".to_string()));
}

#[test]
fn user_fields_are_all_optional() {
    let user = User::deserialize(mapping("name: u\nuser: {}\n")).unwrap();
    assert_eq!(user.name, "u");
    assert_eq!(user.token, None);
    assert_eq!(user.username, None);
    assert_eq!(user.password, None);
    assert_eq!(user.client_certificate, None);
    assert_eq!(user.client_certificate_data, None);
    assert_eq!(user.client_key, None);
    assert_eq!(user.client_key_data, None);
}

#[test]
fn user_without_name_fails() {
    let result = User::deserialize(mapping("user:\n  token: t\n"));
    assert_eq!(result.unwrap_err(), failure("name", Reason::Missing));
}

#[test]
fn user_without_inner_mapping_fails() {
    let result = User::deserialize(mapping("name: u\n"));
    assert_eq!(result.unwrap_err(), failure("user", Reason::Missing));
    let result = User::deserialize(mapping("name: u\nuser: 3\n"));
    assert_eq!(result.unwrap_err(), failure("user", Reason::WrongType));
}

#[test]
fn user_from_fields_keeps_each_field_in_its_place() {
    let user = User::from_fields(
        "u".to_string(),
        text("t"),
        missing("username"),
        text("p"),
        missing("client-certificate"),
        text("cd"),
        missing("client-key"),
        text("kd"),
    );
    assert_eq!(user.name, "u");
    assert_eq!(user.token, Some("t".to_string()));
    assert_eq!(user.username, None);
    assert_eq!(user.password, Some("p".to_string()));
    assert_eq!(user.client_certificate, None);
    assert_eq!(user.client_certificate_data, Some("cd".to_string()));
    assert_eq!(user.client_key, None);
    assert_eq!(user.client_key_data, Some("kd".to_string()));
}

#[test]
fn entity_name_is_the_name_field() {
    let user = User::deserialize(mapping("name: u\nuser: {}\n")).unwrap();
    assert_eq!(user.name(), "u");
    let cluster = Cluster::deserialize(mapping("name: a\ncluster:\n  server: s\n")).unwrap();
    assert_eq!(cluster.name(), "a");
    let context =
        Context::deserialize(mapping("name: c\ncontext:\n  cluster: a\n  user: u\n")).unwrap();
    assert_eq!(context.name(), "c");
}

#[test]
fn decode_entries_keeps_count_and_order() {
    let doc = value("- name: one\n  user: {}\n- name: two\n  user: {}\n- name: three\n  user: {}\n");
    let users: Vec<User> = decode_entries("users", doc.as_sequence().unwrap()).unwrap();
    assert_eq!(users.len(), 3);
    assert_eq!(users[0].name, "one");
    assert_eq!(users[1].name, "two");
    assert_eq!(users[2].name, "three");
}

#[test]
fn decode_entries_of_nothing_is_empty() {
    let users: Vec<User> = decode_entries("users", &Vec::new()).unwrap();
    assert!(users.is_empty());
}

#[test]
fn decode_entries_fails_with_the_first_failure() {
    let doc = value(
        "- name: one\n  cluster:\n    server: s\n- name: two\n  cluster: {}\n- cluster:\n    server: s\n",
    );
    let result: Result<Vec<Cluster>, FieldError> =
        decode_entries("clusters", doc.as_sequence().unwrap());
    assert_eq!(result.unwrap_err(), failure("server", Reason::Missing));
}

#[test]
fn decode_entries_rejects_an_element_that_is_no_mapping() {
    let doc = value("- name: one\n  user: {}\n- just text\n");
    let result: Result<Vec<User>, FieldError> = decode_entries("users", doc.as_sequence().unwrap());
    assert_eq!(result.unwrap_err(), failure("users", Reason::WrongType));
}

#[test]
fn get_collection_requires_a_sequence_under_the_key() {
    let map = mapping("users:\n- name: one\n  user: {}\nclusters: none\n");
    let users: Vec<User> = get_collection(&map, "users").unwrap();
    assert_eq!(users.len(), 1);
    assert_eq!(users[0].name, "one");
    let clusters: Result<Vec<Cluster>, FieldError> = get_collection(&map, "clusters");
    assert_eq!(clusters.unwrap_err(), failure("clusters", Reason::WrongType));
    let contexts: Result<Vec<Context>, FieldError> = get_collection(&map, "contexts");
    assert_eq!(contexts.unwrap_err(), failure("contexts", Reason::Missing));
}

#[test]
fn position_is_the_first_match() {
    let doc = value(
        "- name: a\n  user:\n    token: first\n- name: b\n  user: {}\n- name: a\n  user:\n    token: second\n",
    );
    let users: Vec<User> = decode_entries("users", doc.as_sequence().unwrap()).unwrap();
    assert_eq!(position(&users, &"a".to_string()), Some(0));
    assert_eq!(position(&users, &"b".to_string()), Some(1));
    assert_eq!(position(&users, &"c".to_string()), None);
    assert_eq!(position(&Vec::<User>::new(), &"a".to_string()), None);
}

use nats_messaging::config::{parse_connection_config, resolve, ConnectionConfig};
use nats_messaging::errors::ConfigError;
use nats_messaging::messaging::generate_provider;
use nats_messaging::values::RawValues;

fn raw(pairs: &[(&str, &str)]) -> RawValues {
    let mut values = RawValues::new();
    for (k, v) in pairs {
        values.put(k.to_string(), v.to_string());
    }
    values
}

#[test]
fn test_default_connection_serialize() {
    // a partial structured blob leaves the other fields at their defaults
    let input = r#"
{
    "cluster_uris": ["nats://soyvuh"],
    "auth_jwt": "authy",
    "auth_seed": "seedy"
}
"#;

    let config = parse_connection_config(input).unwrap();
    assert_eq!(config.auth_jwt.unwrap(), "authy");
    assert_eq!(config.auth_seed.unwrap(), "seedy");
    assert_eq!(config.cluster_uris, ["nats://soyvuh"]);
    assert!(config.subscriptions.is_empty());
    assert!(config.ping_interval_sec.is_none());
}

#[test]
fn test_generate_provider_works_with_empty_string() {
    let prov = generate_provider::<i32>(Some("")).unwrap();
    assert_eq!(prov.default_config, ConnectionConfig::default());
}

#[test]
fn test_generate_provider_works_with_none() {
    let prov = generate_provider::<i32>(None).unwrap();
    assert_eq!(prov.default_config, ConnectionConfig::default());
}

#[test]
fn test_connectionconfig_merge() {
    // second > original, individual vec fields are replace not extend
    let mut cc1 = ConnectionConfig::default();
    cc1.cluster_uris = vec!["old_server".to_string()];
    cc1.subscriptions = vec!["topic1".to_string()];
    let mut cc2 = ConnectionConfig::default();
    cc2.cluster_uris = vec!["server1".to_string(), "server2".to_string()];
    cc2.auth_jwt = Some("jawty".to_string());
    let cc3 = cc1.merge(&cc2);
    assert_eq!(cc3.cluster_uris, cc2.cluster_uris);
    assert_eq!(cc3.subscriptions, cc1.subscriptions);
    assert_eq!(cc3.auth_jwt, Some("jawty".to_string()))
}

#[test]
fn resolve_without_override_keeps_default() {
    let mut default = ConnectionConfig::default();
    default.cluster_uris = vec!["broker-a".to_string()];
    let resolved = resolve(&default, None).unwrap();
    assert_eq!(resolved, default);
    let empty = raw(&[]);
    let resolved = resolve(&default, Some(&empty)).unwrap();
    assert_eq!(resolved, default);
}

#[test]
fn resolve_merges_override_and_rejects_missing_seed() {
    // default: one endpoint, one subscription; override: two endpoints and
    // a token without its seed
    let mut default = ConnectionConfig::default();
    default.cluster_uris = vec!["broker-a".to_string()];
    default.subscriptions = vec!["topic1".to_string()];
    let over = raw(&[("URI", "broker-b,broker-c"), ("CLIENT_JWT", "jawty")]);
    let r = resolve(&default, Some(&over));
    assert_eq!(r, Err(ConfigError::InvalidCredential));
}

#[test]
fn resolve_merges_override_with_full_credentials() {
    let mut default = ConnectionConfig::default();
    default.cluster_uris = vec!["broker-a".to_string()];
    default.subscriptions = vec!["topic1".to_string()];
    let over = raw(&[
        ("URI", "broker-b,broker-c"),
        ("CLIENT_JWT", "jawty"),
        ("CLIENT_SEED", "seedy"),
    ]);
    let c = resolve(&default, Some(&over)).unwrap();
    assert_eq!(c.cluster_uris, vec!["broker-b".to_string(), "broker-c".to_string()]);
    assert_eq!(c.subscriptions, vec!["topic1".to_string()]);
    assert_eq!(c.auth_jwt, Some("jawty".to_string()));
    assert_eq!(c.auth_seed, Some("seedy".to_string()));
}

#[test]
fn resolve_twice_yields_equal_results() {
    let mut default = ConnectionConfig::default();
    default.cluster_uris = vec!["broker-a".to_string()];
    let over = raw(&[
        ("SUBSCRIPTION", "t1,t2|group"),
        ("CLIENT_JWT", "j"),
        ("CLIENT_SEED", "s"),
        ("PING_INTERVAL_SEC", "30"),
    ]);
    let first = resolve(&default, Some(&over)).unwrap();
    let second = resolve(&default, Some(&over)).unwrap();
    assert_eq!(first, second);
    assert_eq!(first.subscriptions, vec!["t1".to_string(), "t2|group".to_string()]);
    assert_eq!(first.ping_interval_sec, Some(30));
}

#[test]
fn resolve_rejects_seed_without_token() {
    let default = ConnectionConfig::default();
    let over = raw(&[("CLIENT_SEED", "seedy")]);
    assert_eq!(resolve(&default, Some(&over)), Err(ConfigError::InvalidCredential));
}

#[test]
fn resolve_rejects_colliding_keys() {
    let default = ConnectionConfig::default();
    let over = raw(&[("uri", "a"), ("URI", "b")]);
    assert_eq!(resolve(&default, Some(&over)), Err(ConfigError::Malformed));
}

#[test]
fn resolve_rejects_bad_ping_interval() {
    let default = ConnectionConfig::default();
    let over = raw(&[("PING_INTERVAL_SEC", "soon")]);
    assert_eq!(resolve(&default, Some(&over)), Err(ConfigError::Malformed));
    let over = raw(&[("PING_INTERVAL_SEC", "65536")]);
    assert_eq!(resolve(&default, Some(&over)), Err(ConfigError::Malformed));
}

#[test]
fn resolve_keys_are_case_insensitive() {
    let default = ConnectionConfig::default();
    let over = raw(&[("uri", "broker-x"), ("client_jwt", "j"), ("client_seed", "s")]);
    let c = resolve(&default, Some(&over)).unwrap();
    assert_eq!(c.cluster_uris, vec!["broker-x".to_string()]);
    assert_eq!(c.auth_jwt, Some("j".to_string()));
}

#[test]
fn new_from_uses_structured_json_blob() {
    let over = raw(&[(
        "CONFIG_JSON",
        r#"{"cluster_uris":["inner"],"subscriptions":["s1"],"ping_interval_sec":9}"#,
    )]);
    let c = ConnectionConfig::new_from(&over).unwrap();
    assert_eq!(c.cluster_uris, vec!["inner".to_string()]);
    assert_eq!(c.subscriptions, vec!["s1".to_string()]);
    assert_eq!(c.ping_interval_sec, Some(9));
}

#[test]
fn new_from_uses_base64_blob() {
    // {"cluster_uris":["b64host"]}
    let blob = "eyJjbHVzdGVyX3VyaXMiOlsiYjY0aG9zdCJdfQ==";
    let over = raw(&[("CONFIG_B64", blob)]);
    let c = ConnectionConfig::new_from(&over).unwrap();
    assert_eq!(c.cluster_uris, vec!["b64host".to_string()]);
}

#[test]
fn new_from_rejects_bad_base64_and_bad_json() {
    let over = raw(&[("CONFIG_B64", "!!!not-base64!!!")]);
    assert_eq!(ConnectionConfig::new_from(&over), Err(ConfigError::Malformed));
    let over = raw(&[("CONFIG_JSON", "{ not json")]);
    assert_eq!(ConnectionConfig::new_from(&over), Err(ConfigError::Malformed));
    let over = raw(&[("CONFIG_JSON", r#"{"subscriptions": "not-a-list"}"#)]);
    assert_eq!(ConnectionConfig::new_from(&over), Err(ConfigError::Malformed));
}

#[test]
fn new_from_scalar_subscriptions_accumulate_on_blob() {
    // the scalar path appends, the blob path replaces
    let over = raw(&[
        ("CONFIG_JSON", r#"{"subscriptions":["from-blob"]}"#),
        ("SUBSCRIPTION", "extra1,extra2"),
    ]);
    let c = ConnectionConfig::new_from(&over).unwrap();
    assert_eq!(
        c.subscriptions,
        vec!["from-blob".to_string(), "extra1".to_string(), "extra2".to_string()]
    );
}

#[test]
fn blob_service_descriptor_survives_absent_scalar_keys() {
    // only present override sources take effect: nothing in the scalar keys
    // touches the blob's service descriptor
    let over = raw(&[(
        "CONFIG_JSON",
        r#"{"service_name":"svc","service_description":"desc","service_endpoints":["e1"],"service_version":"2.0.0"}"#,
    )]);
    let c = ConnectionConfig::new_from(&over).unwrap();
    assert_eq!(c.service_name, Some("svc".to_string()));
    assert_eq!(c.service_description, Some("desc".to_string()));
    assert_eq!(c.service_endpoints, Some(vec!["e1".to_string()]));
    assert_eq!(c.service_version, Some("2.0.0".to_string()));
    // a present scalar key still replaces its one field
    let over = raw(&[
        ("CONFIG_JSON", r#"{"service_name":"svc","service_version":"2.0.0"}"#),
        ("SERVICE_VERSION", "3.0.0"),
    ]);
    let c = ConnectionConfig::new_from(&over).unwrap();
    assert_eq!(c.service_name, Some("svc".to_string()));
    assert_eq!(c.service_version, Some("3.0.0".to_string()));
}

#[test]
fn new_from_falls_back_to_default_endpoint() {
    let over = raw(&[("SUBSCRIPTION", "t")]);
    let c = ConnectionConfig::new_from(&over).unwrap();
    assert_eq!(c.cluster_uris, vec!["0.0.0.0:4222".to_string()]);
}

#[test]
fn new_from_service_descriptor_fields() {
    let over = raw(&[
        ("SERVICE_NAME", "svc"),
        ("SERVICE_ENDPOINTS", "a,b"),
        ("SERVICE_VERSION", "1.2.3"),
    ]);
    let c = ConnectionConfig::new_from(&over).unwrap();
    assert_eq!(c.service_name, Some("svc".to_string()));
    assert_eq!(c.service_endpoints, Some(vec!["a".to_string(), "b".to_string()]));
    assert_eq!(c.service_version, Some("1.2.3".to_string()));
    assert_eq!(c.service_description, None);
}

#[test]
fn parse_connection_config_rejects_non_object() {
    assert_eq!(parse_connection_config("5"), Err(ConfigError::Malformed));
    assert_eq!(parse_connection_config("[]"), Err(ConfigError::Malformed));
}

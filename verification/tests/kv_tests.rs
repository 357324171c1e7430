use nats_messaging::errors::VaultConfigError;
use nats_messaging::kvstore::{
    dynamo_get_response, ttl_attribute_plan, vault_get_response, AttrValue, KvError,
};
use nats_messaging::values::RawValues;
use nats_messaging::vault::{Config, VaultEnv};

fn raw(pairs: &[(&str, &str)]) -> RawValues {
    let mut values = RawValues::new();
    for (k, v) in pairs {
        values.put(k.to_string(), v.to_string());
    }
    values
}

fn no_env() -> VaultEnv {
    VaultEnv { addr: None, token: None, mount: None, certs: None }
}

#[test]
fn vault_config_needs_a_token() {
    let r = Config::from_values(&no_env(), &raw(&[]));
    assert_eq!(r.err(), Some(VaultConfigError::MissingToken));
}

#[test]
fn vault_config_defaults_and_env_precedence() {
    let values = raw(&[("token", "from-values"), ("ADDR", "http://values:8200")]);
    let mut env = no_env();
    env.addr = Some("http://env:8200".to_string());
    let c = Config::from_values(&env, &values).unwrap();
    assert_eq!(c.token, "from-values");
    assert_eq!(c.addr, "http://env:8200");
    assert_eq!(c.mount, "secret");
    assert!(c.certs.is_empty());

    let c = Config::from_values(&no_env(), &values).unwrap();
    assert_eq!(c.addr, "http://values:8200");
}

#[test]
fn vault_config_splits_and_trims_certs() {
    let values = raw(&[("TOKEN", "t"), ("certs", " /a/ca.pem , /b/ca.pem ")]);
    let c = Config::from_values(&no_env(), &values).unwrap();
    assert_eq!(c.certs, vec!["/a/ca.pem".to_string(), "/b/ca.pem".to_string()]);
}

#[test]
fn vault_secret_interpretation() {
    // a secret with a data entry is the hit
    let m = vec![("data".to_string(), "value-1".to_string())];
    let g = vault_get_response(Some(&m));
    assert!(g.exists);
    assert_eq!(g.value, "value-1");
    // without the data entry, or without the secret, it is a clean miss
    let m = vec![("other".to_string(), "x".to_string())];
    let g = vault_get_response(Some(&m));
    assert!(!g.exists);
    assert_eq!(g.value, "");
    let g = vault_get_response(None);
    assert!(!g.exists);
}

#[test]
fn dynamo_record_interpretation() {
    let item =
        vec![("v".to_string(), AttrValue::Text("stored".to_string()))];
    let g = dynamo_get_response(Some(&item), "v").unwrap();
    assert!(g.exists);
    assert_eq!(g.value, "stored");

    let g = dynamo_get_response(None, "v").unwrap();
    assert!(!g.exists);
    assert_eq!(g.value, "");

    let item = vec![("other".to_string(), AttrValue::Text("x".to_string()))];
    let r = dynamo_get_response(Some(&item), "v");
    assert_eq!(r.err(), Some(KvError::MissingValueAttribute));

    let item = vec![("v".to_string(), AttrValue::Number("5".to_string()))];
    let r = dynamo_get_response(Some(&item), "v");
    assert_eq!(r.err(), Some(KvError::NonStringValue));
}

#[test]
fn expiring_write_needs_a_ttl_attribute() {
    // no expiry adds nothing
    let r = ttl_attribute_plan(0, &None, 1_700_000_000).unwrap();
    assert!(r.is_none());
    // an expiry without the attribute is an error
    let r = ttl_attribute_plan(60, &None, 1_700_000_000);
    assert_eq!(r.err(), Some(KvError::ExpiryWithoutTtlAttribute));
    // an expiry with the attribute carries the absolute timestamp
    let r = ttl_attribute_plan(60, &Some("expires_at".to_string()), 1_700_000_000).unwrap();
    assert_eq!(r, Some(("expires_at".to_string(), 1_700_000_060)));
}

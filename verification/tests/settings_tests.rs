use nats_messaging::errors::ConfigError;
use nats_messaging::settings::{config_file_path, json_extension_ok, load_settings, ServiceSettings};
use nats_messaging::values::RawValues;

fn raw(pairs: &[(&str, &str)]) -> RawValues {
    let mut values = RawValues::new();
    for (k, v) in pairs {
        values.put(k.to_string(), v.to_string());
    }
    values
}

#[test]
fn default_settings() {
    let s = ServiceSettings::default();
    assert_eq!(s.root, "/tmp");
    assert_eq!(s.chunk_size, 128);
}

#[test]
fn merge_fills_only_default_fields() {
    let mut s = ServiceSettings::default();
    s.merge(ServiceSettings { root: "/data".to_string(), chunk_size: 64 });
    assert_eq!(s.root, "/data");
    assert_eq!(s.chunk_size, 64);
    // fields already set are kept
    s.merge(ServiceSettings { root: "/other".to_string(), chunk_size: 32 });
    assert_eq!(s.root, "/data");
    assert_eq!(s.chunk_size, 64);
}

#[test]
fn load_settings_scalar_keys() {
    let values = raw(&[("ROOT", "/blobs"), ("Port", "4096")]);
    let s = load_settings(&values, None).unwrap();
    assert_eq!(s.root, "/blobs");
    assert_eq!(s.chunk_size, 4096);
}

#[test]
fn load_settings_defaults_without_keys() {
    let s = load_settings(&raw(&[]), None).unwrap();
    assert_eq!(s.root, "/tmp");
    assert_eq!(s.chunk_size, 128);
}

#[test]
fn load_settings_rejects_colliding_keys_and_bad_port() {
    let values = raw(&[("root", "/a"), ("ROOT", "/b")]);
    assert!(matches!(load_settings(&values, None), Err(ConfigError::Malformed)));
    let values = raw(&[("port", "not-a-number")]);
    assert!(matches!(load_settings(&values, None), Err(ConfigError::Malformed)));
}

#[test]
fn load_settings_reads_json_blob() {
    let values = raw(&[("config_json", r#"{"root":"/from-json","chunk_size":77}"#)]);
    let s = load_settings(&values, None).unwrap();
    assert_eq!(s.root, "/from-json");
    assert_eq!(s.chunk_size, 77);
}

#[test]
fn only_json_files_are_accepted() {
    assert!(json_extension_ok("/etc/blobstore.json"));
    assert!(json_extension_ok("relative/name.tar.json"));
    assert!(!json_extension_ok("/etc/blobstore.yaml"));
    assert!(!json_extension_ok("/etc/blobstore"));
    assert!(!json_extension_ok("/etc/.json"));
    assert!(!json_extension_ok("dir.json/file"));
}

#[test]
fn load_settings_rejects_bad_blobs() {
    let values = raw(&[("config_json", "{ not json")]);
    assert!(matches!(load_settings(&values, None), Err(ConfigError::Malformed)));
    let values = raw(&[("config_b64", "!!!not-base64!!!")]);
    assert!(matches!(load_settings(&values, None), Err(ConfigError::Malformed)));
    // decodable base64 whose bytes are not JSON: "not json" in base64
    let values = raw(&[("config_b64", "bm90IGpzb24=")]);
    assert!(matches!(load_settings(&values, None), Err(ConfigError::Malformed)));
}

#[test]
fn load_settings_reads_handed_in_file_text() {
    let values = raw(&[("config_file", "/etc/blobstore.json")]);
    assert_eq!(config_file_path(&values), Some("/etc/blobstore.json".to_string()));
    let s = load_settings(&values, Some(r#"{"root":"/from-file","chunk_size":9}"#)).unwrap();
    assert_eq!(s.root, "/from-file");
    assert_eq!(s.chunk_size, 9);
    // a named file whose text the caller could not supply is an error
    assert!(load_settings(&values, None).is_err());
}

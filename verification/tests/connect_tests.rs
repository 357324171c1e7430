use nats_messaging::config::ConnectionConfig;
use nats_messaging::connect::{connection_plan, AuthPlan};

#[test]
fn plan_splits_subscriptions_and_drops_empty_entries() {
    let mut cfg = ConnectionConfig::default();
    cfg.subscriptions =
        vec!["plain".to_string(), "".to_string(), "balanced|workers".to_string()];
    let plan = connection_plan(&cfg).unwrap();
    assert_eq!(plan.url, "0.0.0.0:4222");
    assert!(matches!(plan.auth, AuthPlan::NoAuth));
    assert_eq!(plan.subscriptions.len(), 2);
    assert_eq!(plan.subscriptions[0].subject, "plain");
    assert_eq!(plan.subscriptions[0].queue, None);
    assert_eq!(plan.subscriptions[1].subject, "balanced");
    assert_eq!(plan.subscriptions[1].queue, Some("workers".to_string()));
}

#[test]
fn plan_declares_service_endpoints_on_dotted_subjects() {
    let mut cfg = ConnectionConfig::default();
    cfg.service_name = Some("svc".to_string());
    cfg.service_endpoints = Some(vec!["echo".to_string(), "ping".to_string()]);
    let plan = connection_plan(&cfg).unwrap();
    let service = plan.service.unwrap();
    assert_eq!(service.name, "svc");
    assert_eq!(service.description, "Unknown");
    assert_eq!(service.version, "0.0.1");
    assert_eq!(service.endpoints.len(), 2);
    assert_eq!(service.endpoints[0].endpoint, "echo");
    assert_eq!(service.endpoints[0].subject, "svc.echo");
    assert_eq!(service.endpoints[1].subject, "svc.ping");
}

#[test]
fn plan_uses_both_credential_halves_or_none() {
    let mut cfg = ConnectionConfig::default();
    cfg.auth_jwt = Some("jwt".to_string());
    cfg.auth_seed = Some("seed".to_string());
    let plan = connection_plan(&cfg).unwrap();
    match plan.auth {
        AuthPlan::Jwt { jwt, seed } => {
            assert_eq!(jwt, "jwt");
            assert_eq!(seed, "seed");
        },
        _ => panic!("expected token authentication"),
    }
}

#[test]
fn plan_rejects_half_a_credential_pair() {
    let mut cfg = ConnectionConfig::default();
    cfg.auth_jwt = Some("jwt".to_string());
    assert!(connection_plan(&cfg).is_err());
    let mut cfg = ConnectionConfig::default();
    cfg.auth_seed = Some("seed".to_string());
    assert!(connection_plan(&cfg).is_err());
}

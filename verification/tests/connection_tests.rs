use nats_messaging::connections::{ClientBundle, ConnectionManager};

#[test]
fn link_then_unlink_leaves_no_tenant_and_cancels_all_tasks() {
    // two spawned tasks stand in for subscription receive loops
    let rt = tokio::runtime::Builder::new_multi_thread().enable_all().build().unwrap();
    let h1 = rt.spawn(async { std::future::pending::<()>().await });
    let h2 = rt.spawn(async { std::future::pending::<()>().await });

    let mut mgr: ConnectionManager<i32> = ConnectionManager::new();
    assert_eq!(mgr.len(), 0);
    mgr.link(
        "tenant-a".to_string(),
        ClientBundle {
            client: 7,
            sub_handles: vec![("topic1".to_string(), h1), ("topic2".to_string(), h2)],
        },
    );
    assert_eq!(mgr.len(), 1);
    assert!(mgr.lookup("tenant-a").is_some());

    let cancelled = mgr.unlink("tenant-a");
    assert_eq!(cancelled, 2);
    assert_eq!(mgr.len(), 0);
    assert!(mgr.lookup("tenant-a").is_none());
}

#[test]
fn unlink_of_unknown_tenant_is_a_quiet_no_op() {
    let mut mgr: ConnectionManager<i32> = ConnectionManager::new();
    assert_eq!(mgr.unlink("nobody"), 0);
    assert_eq!(mgr.len(), 0);
}

#[test]
fn linking_again_replaces_the_old_bundle() {
    let mut mgr: ConnectionManager<i32> = ConnectionManager::new();
    mgr.link("t".to_string(), ClientBundle { client: 1, sub_handles: vec![] });
    mgr.link("t".to_string(), ClientBundle { client: 2, sub_handles: vec![] });
    assert_eq!(mgr.len(), 1);
    assert_eq!(*mgr.lookup("t").unwrap(), 2);
}

#[test]
fn unlink_leaves_other_tenants_bundles_untouched() {
    let mut mgr: ConnectionManager<i32> = ConnectionManager::new();
    mgr.link("a".to_string(), ClientBundle { client: 1, sub_handles: vec![] });
    mgr.link("b".to_string(), ClientBundle { client: 2, sub_handles: vec![] });
    mgr.unlink("a");
    assert_eq!(mgr.len(), 1);
    assert_eq!(*mgr.lookup("b").unwrap(), 2);
}

#[test]
fn shutdown_unlinks_every_tenant() {
    let mut mgr: ConnectionManager<i32> = ConnectionManager::new();
    mgr.link("a".to_string(), ClientBundle { client: 1, sub_handles: vec![] });
    mgr.link("b".to_string(), ClientBundle { client: 2, sub_handles: vec![] });
    assert_eq!(mgr.len(), 2);
    mgr.shutdown();
    assert_eq!(mgr.len(), 0);
    assert!(mgr.lookup("a").is_none());
    assert!(mgr.lookup("b").is_none());
}

use bytes::Bytes;
use nats_messaging::connections::ClientBundle;
use nats_messaging::errors::{PublishError, RequestError};
use nats_messaging::messaging::{
    complete_request, should_strip_headers, NatsMessagingProvider, PublishPlan, ReplyMessage,
    RequestMessage, RequestOutcome,
};
use nats_messaging::services::WaiterTable;

fn provider_with_tenant(tenant: &str) -> NatsMessagingProvider<u8> {
    let mut prov = NatsMessagingProvider::<u8>::new();
    prov.actors.link(tenant.to_string(), ClientBundle { client: 0u8, sub_handles: vec![] });
    prov
}

#[test]
fn waiter_receives_published_payload_once() {
    // register a waiter for svc.echo, publish to it, then publish again
    let mut prov = provider_with_tenant("actor1");
    let (tx, mut rx) = tokio::sync::oneshot::channel::<Bytes>();
    prov.waiters.add_request_waiter("svc.echo".to_string(), tx);

    let plan = prov.plan_publish("actor1", "svc.echo", Bytes::from_static(b"hi")).unwrap();
    assert!(matches!(plan, PublishPlan::DeliveredLocally));
    assert_eq!(rx.try_recv().unwrap(), Bytes::from_static(b"hi"));

    // the waiter is consumed: the second publish goes to the broker
    let plan = prov.plan_publish("actor1", "svc.echo", Bytes::from_static(b"again")).unwrap();
    assert!(matches!(plan, PublishPlan::Forward { strip_headers: false }));
}

#[test]
fn waiter_with_dropped_receiver_does_not_error() {
    let mut prov = provider_with_tenant("actor1");
    let (tx, rx) = tokio::sync::oneshot::channel::<Bytes>();
    prov.waiters.add_request_waiter("svc.echo".to_string(), tx);
    drop(rx);
    let plan = prov.plan_publish("actor1", "svc.echo", Bytes::from_static(b"hi")).unwrap();
    assert!(matches!(plan, PublishPlan::DeliveredLocally));
}

#[test]
fn registering_twice_keeps_one_waiter() {
    let mut table = WaiterTable::new();
    let (tx1, mut rx1) = tokio::sync::oneshot::channel::<Bytes>();
    let (tx2, mut rx2) = tokio::sync::oneshot::channel::<Bytes>();
    table.add_request_waiter("s".to_string(), tx1);
    table.add_request_waiter("s".to_string(), tx2);
    assert!(table.is_request_waiting("s"));
    assert!(table.dispatch_request_waiter("s", Bytes::from_static(b"x")));
    // the later registration won; the earlier sender was dropped
    assert!(rx1.try_recv().is_err());
    assert_eq!(rx2.try_recv().unwrap(), Bytes::from_static(b"x"));
    // and the table is empty again
    assert!(!table.is_request_waiting("s"));
    assert!(!table.dispatch_request_waiter("s", Bytes::from_static(b"y")));
}

#[test]
fn publish_for_unlinked_tenant_is_rejected() {
    let mut prov = NatsMessagingProvider::<u8>::new();
    let r = prov.plan_publish("ghost", "topic", Bytes::from_static(b""));
    assert!(matches!(r, Err(PublishError::NotLinked)));
}

#[test]
fn request_for_unlinked_tenant_is_rejected() {
    let prov = NatsMessagingProvider::<u8>::new();
    let msg = RequestMessage { subject: "topic".to_string(), body: vec![], timeout_ms: 100 };
    let r = prov.plan_request("ghost", &msg);
    assert!(matches!(r, Err(RequestError::NotLinked)));
}

#[test]
fn request_plan_carries_timeout_and_header_rule() {
    let prov = provider_with_tenant("actor1");
    let msg = RequestMessage { subject: "$SYS.REQ.thing".to_string(), body: vec![], timeout_ms: 250 };
    let plan = prov.plan_request("actor1", &msg).unwrap();
    assert!(plan.strip_headers);
    assert_eq!(plan.timeout_ms, 250);
    let msg = RequestMessage { subject: "app.topic".to_string(), body: vec![], timeout_ms: 250 };
    let plan = prov.plan_request("actor1", &msg).unwrap();
    assert!(!plan.strip_headers);
}

#[test]
fn timed_out_request_reports_timeout() {
    // a broker that never replies ends the race as a timeout
    let r = complete_request(RequestOutcome::TimedOut);
    assert!(matches!(r, Err(RequestError::Timeout)));
}

#[test]
fn failed_send_reports_transport_error() {
    let r = complete_request(RequestOutcome::SendFailed("broken pipe".to_string()));
    match r {
        Err(RequestError::Transport(m)) => assert_eq!(m, "broken pipe"),
        _ => panic!("expected a transport error"),
    }
}

#[test]
fn reply_passes_through_unchanged() {
    let rep = ReplyMessage {
        subject: "inbox.1".to_string(),
        reply_to: None,
        body: vec![1, 2, 3],
    };
    let r = complete_request(RequestOutcome::Replied(rep)).unwrap();
    assert_eq!(r.subject, "inbox.1");
    assert_eq!(r.reply_to, None);
    assert_eq!(r.body, vec![1, 2, 3]);
}

#[test]
fn header_stripping_is_exactly_sys_prefix() {
    assert!(should_strip_headers("$SYS"));
    assert!(should_strip_headers("$SYS.REQ"));
    assert!(!should_strip_headers("$SY"));
    assert!(!should_strip_headers("sys.req"));
    assert!(!should_strip_headers(""));
}

use nats_messaging::blobstore::{concat_chunks, join_path, plan_put_object, root_for_link, BlobError};
use nats_messaging::blobview::{container_listing_headers, route_request, RouteDecision};
use nats_messaging::kvcache::{classify_next, SubscriptionNextResult};
use nats_messaging::s3::{s3_client_plan, CredentialsPlan, RegionPlan};
use nats_messaging::values::RawValues;

fn raw(pairs: &[(&str, &str)]) -> RawValues {
    let mut values = RawValues::new();
    for (k, v) in pairs {
        values.put(k.to_string(), v.to_string());
    }
    values
}

#[test]
fn put_object_stream_rule() {
    assert_eq!(plan_put_object(0, false, "c", "o"), Err(BlobError::EmptyObject));
    assert_eq!(plan_put_object(10, true, "c", "o"), Ok(None));
    assert_eq!(plan_put_object(10, false, "c", "o"), Ok(Some("c+o".to_string())));
}

#[test]
fn paths_join_with_one_separator() {
    assert_eq!(join_path("/tmp", "actor"), "/tmp/actor");
    assert_eq!(join_path("/tmp/", "actor"), "/tmp/actor");
    assert_eq!(join_path("/tmp", "/absolute"), "/absolute");
    assert_eq!(join_path("", "actor"), "/actor");
    let values = raw(&[("ROOT", "/blobs")]);
    assert_eq!(root_for_link(&values, "actor-1"), "/blobs/actor-1");
    assert_eq!(root_for_link(&raw(&[]), "actor-1"), "/tmp/actor-1");
}

#[test]
fn chunks_concatenate_in_order() {
    let chunks = vec![vec![1u8, 2], vec![], vec![3, 4, 5]];
    assert_eq!(concat_chunks(&chunks), vec![1, 2, 3, 4, 5]);
    assert_eq!(concat_chunks(&Vec::new()), Vec::<u8>::new());
}

#[test]
fn container_listing_is_get_containers_only() {
    assert!(matches!(route_request("GET", "/containers"), RouteDecision::ContainerListing));
    assert!(matches!(route_request("get", "/containers"), RouteDecision::ContainerListing));
    assert!(matches!(route_request("POST", "/containers"), RouteDecision::Greeting));
    assert!(matches!(route_request("GET", "/other"), RouteDecision::Greeting));
    let headers = container_listing_headers();
    assert_eq!(headers[0].0, "content-type");
    assert_eq!(headers[0].1, vec!["application/json".to_string()]);
    assert_eq!(headers[1].1, vec!["containers 0-0/1".to_string()]);
}

#[test]
fn s3_plan_regions_and_credentials() {
    let plan = s3_client_plan(&raw(&[]));
    assert!(matches!(plan.region, RegionPlan::DefaultRegion));
    assert!(matches!(plan.credentials, CredentialsPlan::DefaultChain));

    let plan = s3_client_plan(&raw(&[("REGION", "eu-west-1")]));
    match plan.region {
        RegionPlan::Custom { name, endpoint } => {
            assert_eq!(name, "eu-west-1");
            assert_eq!(endpoint, "s3.us-east-1.amazonaws.com");
        }
        _ => panic!("expected a custom region"),
    }

    let plan = s3_client_plan(&raw(&[
        ("AWS_ACCESS_KEY", "AK"),
        ("AWS_SECRET_ACCESS_KEY", "SK"),
        ("HTTP_PROXY", ""),
        ("TOKEN_VALID_FOR", "3600"),
    ]));
    match plan.credentials {
        CredentialsPlan::Static { access_key, secret_key, token, valid_for, proxy } => {
            assert_eq!(access_key, "AK");
            assert_eq!(secret_key, "SK");
            assert_eq!(token, None);
            assert_eq!(valid_for, Some(3600));
            assert_eq!(proxy, None);
        }
        _ => panic!("expected static credentials"),
    }

    let plan = s3_client_plan(&raw(&[
        ("AWS_ACCESS_KEY", "AK"),
        ("AWS_SECRET_ACCESS_KEY", "SK"),
        ("HTTP_PROXY", "http://proxy:3128"),
    ]));
    match plan.credentials {
        CredentialsPlan::Static { proxy, .. } => {
            assert_eq!(proxy, Some("http://proxy:3128".to_string()));
        }
        _ => panic!("expected static credentials"),
    }
}

#[test]
fn subscription_wait_classification() {
    let r: SubscriptionNextResult<u32> = classify_next(None);
    assert!(matches!(r, SubscriptionNextResult::Timeout));
    let r: SubscriptionNextResult<u32> = classify_next(Some(None));
    assert!(matches!(r, SubscriptionNextResult::Cancelled));
    let r = classify_next(Some(Some(Ok(7u32))));
    assert!(matches!(r, SubscriptionNextResult::Item(7)));
    let r: SubscriptionNextResult<u32> = classify_next(Some(Some(Err("bad".to_string()))));
    match r {
        SubscriptionNextResult::Failed(m) => assert_eq!(m, "bad"),
        _ => panic!("expected a decode failure"),
    }
}

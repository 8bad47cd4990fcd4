use volo_example::middleware::{LogLayer, LogService};
use volo_example::service::{
    DeleteItemRequest, GetItemRequest, ItemRequest, ItemResponse, PingRequest, PostItemRequest,
    Service, ServiceError, SetItemRequest, S,
};
use volo_example::store::Kv;

fn s(x: &str) -> String {
    x.to_string()
}

fn set_req(k: &str, v: &str) -> ItemRequest {
    ItemRequest::SetItem(SetItemRequest { kv: Kv { key: s(k), value: s(v) } })
}

fn get_value<P: Service>(p: &mut P, k: &str) -> String {
    match p.call(ItemRequest::GetItem(GetItemRequest { key: s(k) })) {
        Ok(ItemResponse::GetItem(g)) => g.value,
        _ => panic!("get failed"),
    }
}

#[test]
fn service_missing_key_returns_empty() {
    let svc = S::new();
    let r = svc.get_item(GetItemRequest { key: s("nonexistent") });
    assert_eq!(r.value, "");
}

#[test]
fn service_set_acknowledges_ok() {
    let mut svc = S::new();
    let r = svc.set_item(SetItemRequest { kv: Kv { key: s("a"), value: s("1") } });
    assert_eq!(r.message, "OK");
    assert_eq!(svc.get_item(GetItemRequest { key: s("a") }).value, "1");
}

#[test]
fn service_ping_echo_and_sentinel() {
    let svc = S::new();
    assert_eq!(svc.ping(PingRequest { message: Some(s("hello")) }).message, "hello");
    assert_eq!(svc.ping(PingRequest { message: None }).message, "PONG");
}

#[test]
fn service_post_does_nothing() {
    let mut svc = S::new();
    let _ = svc.post_item(PostItemRequest { name: s("x") });
    let r = svc.call(ItemRequest::PostItem(PostItemRequest { name: s("x") }));
    assert!(matches!(r, Ok(ItemResponse::PostItem(_))));
    assert_eq!(get_value(&mut svc, "x"), "");
}

#[test]
fn service_delete_counts() {
    let mut svc = S::new();
    svc.call(set_req("a", "1")).ok();
    let r = svc.delete_item(DeleteItemRequest { keys: vec![s("a"), s("b")] });
    assert_eq!(r.count, 1);
}

#[test]
fn pipeline_overwrite() {
    let mut p = LogLayer.layer(S::new());
    assert!(matches!(p.call(set_req("k", "v1")), Ok(ItemResponse::SetItem(_))));
    assert!(matches!(p.call(set_req("k", "v2")), Ok(ItemResponse::SetItem(_))));
    assert_eq!(get_value(&mut p, "k"), "v2");
}

#[test]
fn pipeline_ping_echo() {
    let mut p = LogService(S::new());
    match p.call(ItemRequest::Ping(PingRequest { message: Some(s("hello")) })) {
        Ok(ItemResponse::Ping(r)) => assert_eq!(r.message, "hello"),
        _ => panic!("ping failed"),
    }
}

#[test]
fn pipeline_anonymous_ping_rejected() {
    let mut p = LogService(S::new());
    let r = p.call(ItemRequest::Ping(PingRequest { message: None }));
    assert!(matches!(r, Err(ServiceError::Rejected)));
}

#[test]
fn pipeline_nested_layers() {
    let mut p = LogLayer.layer(LogLayer.layer(S::new()));
    assert!(matches!(p.call(set_req("a", "1")), Ok(ItemResponse::SetItem(_))));
    assert_eq!(get_value(&mut p, "a"), "1");
    let r = p.call(ItemRequest::Ping(PingRequest { message: None }));
    assert!(matches!(r, Err(ServiceError::Rejected)));
}

#[test]
fn pipeline_scenario() {
    let mut p = LogLayer.layer(S::new());
    assert!(matches!(p.call(set_req("a", "1")), Ok(ItemResponse::SetItem(_))));
    assert_eq!(get_value(&mut p, "a"), "1");
    match p.call(ItemRequest::DeleteItem(DeleteItemRequest { keys: vec![s("a"), s("b")] })) {
        Ok(ItemResponse::DeleteItem(d)) => assert_eq!(d.count, 1),
        _ => panic!("delete failed"),
    }
    assert_eq!(get_value(&mut p, "a"), "");
    let r = p.call(ItemRequest::Ping(PingRequest { message: None }));
    assert!(matches!(r, Err(ServiceError::Rejected)));
    match p.call(ItemRequest::Ping(PingRequest { message: Some(s("hi")) })) {
        Ok(ItemResponse::Ping(r)) => assert_eq!(r.message, "hi"),
        _ => panic!("ping failed"),
    }
}

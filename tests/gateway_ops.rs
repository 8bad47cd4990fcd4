use volo_example::client;
use volo_example::gateway::{
    decimal_text, delete_reply, get_reply, handle_delete_item, handle_get_item, handle_ping,
    handle_set_item, ping_reply, set_reply, BodyKind, STATUS_ERROR, STATUS_OK,
};
use volo_example::middleware::LogLayer;
use volo_example::service::{
    DeleteItemResponse, GetItemResponse, ItemResponse, PingResponse, ServiceError, S,
};

fn s(x: &str) -> String {
    x.to_string()
}

#[test]
fn decimal_text_values() {
    assert_eq!(decimal_text(0), "0");
    assert_eq!(decimal_text(7), "7");
    assert_eq!(decimal_text(10), "10");
    assert_eq!(decimal_text(1234567890), "1234567890");
    assert_eq!(decimal_text(u64::MAX), "18446744073709551615");
}

#[test]
fn gateway_ping_is_rejected() {
    let mut p = LogLayer.layer(S::new());
    let h = handle_ping(&mut p);
    assert_eq!(h.status, STATUS_ERROR);
    assert_eq!(h.kind, BodyKind::Text);
    assert_eq!(h.body, "");
}

#[test]
fn gateway_ping_reply_ok() {
    let h = ping_reply(Ok(ItemResponse::Ping(PingResponse { message: s("PONG") })));
    assert_eq!(h.status, STATUS_OK);
    assert_eq!(h.body, "PONG");
}

#[test]
fn gateway_set_get_delete() {
    let mut p = LogLayer.layer(S::new());
    let h = handle_set_item(&mut p, s("a"), s("1"));
    assert_eq!((h.status, h.kind, h.body.as_str()), (200, BodyKind::Text, "set ok"));
    let h = handle_get_item(&mut p, s("a"));
    assert_eq!((h.status, h.kind, h.body.as_str()), (200, BodyKind::Json, "1"));
    let h = handle_delete_item(&mut p, vec![s("a"), s("b")]);
    assert_eq!((h.status, h.kind, h.body.as_str()), (200, BodyKind::Text, "delete 1 items"));
    let h = handle_get_item(&mut p, s("a"));
    assert_eq!((h.status, h.body.as_str()), (200, ""));
}

#[test]
fn gateway_error_replies() {
    let h = get_reply(Err(ServiceError::Transport(s("down"))));
    assert_eq!((h.status, h.kind, h.body.as_str()), (500, BodyKind::Json, "error"));
    let h = set_reply(Err(ServiceError::Rejected));
    assert_eq!((h.status, h.body.as_str()), (500, "set error"));
    let h = delete_reply(Err(ServiceError::Transport(s("down"))));
    assert_eq!((h.status, h.body.as_str()), (500, "delete error"));
    let h = ping_reply(Err(ServiceError::Rejected));
    assert_eq!((h.status, h.body.as_str()), (500, ""));
}

#[test]
fn gateway_delete_reply_large_count() {
    let h = delete_reply(Ok(ItemResponse::DeleteItem(DeleteItemResponse { count: 305 })));
    assert_eq!(h.body, "delete 305 items");
    let h = get_reply(Ok(ItemResponse::GetItem(GetItemResponse { value: s("v") })));
    assert_eq!((h.status, h.body.as_str()), (200, "v"));
}

#[test]
fn client_calls_fall_back_to_defaults() {
    let mut p = LogLayer.layer(S::new());
    assert_eq!(client::ping(&mut p, None).message, "");
    assert_eq!(client::ping(&mut p, Some(s("hi"))).message, "hi");
    assert_eq!(client::set_item(&mut p, s("k"), s("v")).message, "OK");
    assert_eq!(client::get_item(&mut p, s("k")).value, "v");
    assert_eq!(client::delete_item(&mut p, vec![s("k"), s("k")]).count, 1);
    assert_eq!(client::get_item(&mut p, s("k")).value, "");
}

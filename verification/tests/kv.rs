use maelstrom::kv::{
    cas_request, is_ref_false, protocol_violated, read_reply, read_request, write_request, ReadReply,
    StorageKind,
};
use maelstrom::protocol::MessageBody;
use maelstrom::Error;
use serde_json::Value;
type JsonMap = serde_json::Map<String, Value>;

fn obj(pairs: &[(&str, Value)]) -> JsonMap {
    let mut m = JsonMap::new();
    for (k, v) in pairs {
        m.insert(k.to_string(), v.clone());
    }
    m
}

#[test]
fn service_names() {
    assert_eq!(StorageKind::Linearizable.service(), "lin-kv");
    assert_eq!(StorageKind::Sequential.service(), "seq-kv");
    assert_eq!(StorageKind::LastWriteWins.service(), "lww-kv");
    assert_eq!(StorageKind::TotalStoreOrder.service(), "lin-tso");
}

#[test]
fn request_bodies() {
    assert_eq!(
        read_request("k".into()),
        obj(&[("type", Value::String("read".into())), ("key", Value::String("k".into()))])
    );
    assert_eq!(
        write_request("k".into(), Value::from(3)),
        obj(&[
            ("type", Value::String("write".into())),
            ("key", Value::String("k".into())),
            ("value", Value::from(3))
        ])
    );
    assert_eq!(
        cas_request("k".into(), Value::from(1), Value::from(2), false),
        obj(&[
            ("type", Value::String("cas".into())),
            ("key", Value::String("k".into())),
            ("from", Value::from(1)),
            ("to", Value::from(2))
        ])
    );
    assert_eq!(
        cas_request("k".into(), Value::from(1), Value::from(2), true),
        obj(&[
            ("type", Value::String("cas".into())),
            ("key", Value::String("k".into())),
            ("from", Value::from(1)),
            ("to", Value::from(2)),
            ("create_if_not_exists", Value::Bool(true))
        ])
    );
    assert!(is_ref_false(&false));
    assert!(!is_ref_false(&true));
}

#[test]
fn read_replies() {
    let ok = MessageBody::from_extra(obj(&[("value", Value::from(9))])).with_type("read_ok");
    assert_eq!(read_reply(&ok), ReadReply::Value(Some(Value::from(9))));
    let missing = MessageBody::new().with_type("read_ok");
    assert_eq!(read_reply(&missing), ReadReply::Value(None));
    let cas_ok = MessageBody::new().with_type("cas_ok");
    assert_eq!(read_reply(&cas_ok), ReadReply::Violated(vec![]));
    let write = MessageBody::from_extra(obj(&[
        ("key", Value::String("k".into())),
        ("value", Value::from(4)),
    ]))
    .with_type("write");
    assert_eq!(read_reply(&write), ReadReply::Violated(vec![Some(Value::from(4))]));
    let read_without_key = MessageBody::new().with_type("read");
    assert_eq!(read_reply(&read_without_key), ReadReply::Malformed);
    let read_numeric_key = MessageBody::from_extra(obj(&[("key", Value::from(1))])).with_type("read");
    assert_eq!(read_reply(&read_numeric_key), ReadReply::Malformed);
    let cas = MessageBody::from_extra(obj(&[
        ("key", Value::String("k".into())),
        ("from", Value::from(1)),
        ("create_if_not_exists", Value::Bool(true)),
    ]))
    .with_type("cas");
    assert_eq!(read_reply(&cas), ReadReply::Violated(vec![Some(Value::from(1)), None]));
    let bad_flag = MessageBody::from_extra(obj(&[
        ("key", Value::String("k".into())),
        ("create_if_not_exists", Value::from(1)),
    ]))
    .with_type("cas");
    assert_eq!(read_reply(&bad_flag), ReadReply::Malformed);
    let unknown = MessageBody::new().with_type("echo_ok");
    assert_eq!(read_reply(&unknown), ReadReply::Unknown);
    assert_eq!(protocol_violated(), Error::Custom(-1, "kv: protocol violated".to_string()));
}

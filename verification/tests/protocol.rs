use maelstrom::protocol::{u64_zero_by_ref, InitMessageBody, Message, MessageBody};
use maelstrom::rpc::{call_end, CallEnd, CallEvent};
use maelstrom::{rpc_msg_type, Error};
use serde_json::Value;
type JsonMap = serde_json::Map<String, Value>;

fn fields(pairs: &[(&str, Value)]) -> JsonMap {
    let mut m = JsonMap::new();
    for (k, v) in pairs {
        m.insert(k.to_string(), v.clone());
    }
    m
}

#[test]
fn builders_set_one_field_each() {
    let extra = fields(&[("echo", Value::String("Please echo 35".to_string()))]);
    let b = MessageBody::from_extra(extra.clone()).with_type("echo").and_msg_id(1).with_reply_to(5);
    assert_eq!(b.typ, "echo");
    assert_eq!(b.msg_id, 1);
    assert_eq!(b.in_reply_to, 5);
    assert_eq!(b.extra, extra);
    let e = MessageBody::new();
    assert_eq!((e.typ.as_str(), e.msg_id, e.in_reply_to, e.extra.len()), ("", 0, 0, 0));
    assert_eq!(MessageBody::default(), e);
}

#[test]
fn get_type_and_is_error() {
    let m = Message {
        src: "c1".to_string(),
        dest: "n1".to_string(),
        body: MessageBody::new().with_type("error"),
    };
    assert_eq!(m.get_type(), "error");
    assert!(m.body.is_error());
    assert!(!MessageBody::new().with_type("errors").is_error());
}

#[test]
fn raw_puts_the_type_in() {
    let extra = fields(&[("echo", Value::String("hi".to_string())), ("type", Value::Null)]);
    let raw = MessageBody::from_extra(extra).with_type("echo").raw();
    let expected = Value::Object(fields(&[
        ("echo", Value::String("hi".to_string())),
        ("type", Value::String("echo".to_string())),
    ]));
    assert_eq!(raw, expected);
}

#[test]
fn zero_ids_are_skipped() {
    assert!(u64_zero_by_ref(&0));
    assert!(!u64_zero_by_ref(&3));
}

#[test]
fn init_body_default() {
    let b = InitMessageBody::default();
    assert_eq!(b.node_id, "");
    assert!(b.nodes.is_empty());
}

#[test]
fn error_responses_become_errors() {
    let ok = Message { src: "n1".into(), dest: "n0".into(), body: MessageBody::new().with_type("read_ok") };
    assert_eq!(rpc_msg_type(ok.clone()), Ok(ok));
    let body = MessageBody::from_extra(fields(&[
        ("code", Value::from(20)),
        ("text", Value::String("key does not exist".to_string())),
    ]))
    .with_type("error");
    let err = Message { src: "lin-kv".into(), dest: "n0".into(), body };
    assert_eq!(rpc_msg_type(err), Err(Error::KeyDoesNotExist));
    let body = MessageBody::from_extra(fields(&[
        ("code", Value::from(10)),
        ("text", Value::String("cas".to_string())),
    ]))
    .with_type("error");
    let err = Message { src: "lin-kv".into(), dest: "n0".into(), body };
    assert_eq!(rpc_msg_type(err), Err(Error::NotSupported("cas".to_string())));
    let body = MessageBody::from_extra(fields(&[("code", Value::from(1234))])).with_type("error");
    let err = Message { src: "x".into(), dest: "n0".into(), body };
    assert_eq!(rpc_msg_type(err), Err(Error::Custom(1234, String::new())));
    let body = MessageBody::from_extra(fields(&[("text", Value::String("?".into()))])).with_type("error");
    let err = Message { src: "x".into(), dest: "n0".into(), body };
    assert_eq!(rpc_msg_type(err), Err(Error::Crash));
}

#[test]
fn calls_end_by_what_they_meet() {
    assert_eq!(call_end(CallEvent::Taken), CallEnd::Refused(Error::Abort));
    assert_eq!(call_end(CallEvent::Deadline), CallEnd::Refused(Error::Timeout));
    assert_eq!(call_end(CallEvent::Closed), CallEnd::Closed);
    let ok = Message { src: "n1".into(), dest: "n0".into(), body: MessageBody::new().with_type("read_ok") };
    assert_eq!(call_end(CallEvent::Response(ok.clone())), CallEnd::Answer(ok));
    let body = MessageBody::from_extra(fields(&[("code", Value::from(11))])).with_type("error");
    let err = Message { src: "n1".into(), dest: "n0".into(), body };
    assert_eq!(call_end(CallEvent::Response(err)), CallEnd::Refused(Error::TemporarilyUnavailable));
}

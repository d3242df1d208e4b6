use maelstrom::protocol::{InitMessageBody, Message, MessageBody};
use maelstrom::runtime::{
    done_outcome, init_ok_message, is_fatal, reply_message, run_result, run_step, send_message, echo_limit_reached, Incoming,
    MembershipState, RunAction, RunEvent, RuntimeState,
};
use maelstrom::{Error, Failure};
use serde_json::Value;
type JsonMap = serde_json::Map<String, Value>;

fn example(n: &str, s: &[&str]) -> MembershipState {
    MembershipState { node_id: n.to_string(), nodes: s.iter().map(|x| x.to_string()).collect() }
}

fn obj(pairs: &[(&str, Value)]) -> Value {
    let mut m = JsonMap::new();
    for (k, v) in pairs {
        m.insert(k.to_string(), v.clone());
    }
    Value::Object(m)
}

fn request(typ: &str, msg_id: u64) -> Message {
    Message {
        src: "c1".to_string(),
        dest: "n1".to_string(),
        body: MessageBody::new().with_type(typ).and_msg_id(msg_id),
    }
}

#[test]
fn membership() {
    let mut runtime: RuntimeState<()> = RuntimeState::new();
    let s1 = example("n0", &["n0", "n1"]);
    let s2 = example("n1", &["n0", "n1"]);
    runtime.set_membership_state(s1).unwrap();
    assert!(matches!(runtime.set_membership_state(s2), Err(_)));
    assert_eq!(runtime.node_id(), "n0", "invalid node id, can't be anything else");
}

#[test]
fn membership_before_and_after_init() {
    let mut runtime: RuntimeState<()> = RuntimeState::new();
    assert_eq!(runtime.node_id(), "");
    assert!(runtime.nodes().is_empty());
    assert_eq!(runtime.next_msg_id(), 1);
    assert_eq!(runtime.next_msg_id(), 2);
    let init = InitMessageBody { node_id: "n3".into(), nodes: vec!["n1".into(), "n3".into()] };
    runtime.process_init(init).unwrap();
    assert_eq!(runtime.node_id(), "n3");
    assert_eq!(runtime.nodes(), &["n1".to_string(), "n3".to_string()][..]);
    // a new node starts its ids anew
    assert_eq!(runtime.next_msg_id(), 1);
    let second = runtime.process_init(InitMessageBody::default());
    assert_eq!(
        second,
        Err(Failure::Other("membership is inited: AlreadyInitializedError".to_string()))
    );
    assert_eq!(runtime.next_msg_id(), 2);
}

#[test]
fn reply_types_after_the_request() {
    let req = request("echo", 7);
    let m = reply_message(req.clone(), obj(&[("echo", Value::String("hi".into()))])).unwrap();
    assert_eq!((m.src.as_str(), m.dest.as_str()), ("n1", "c1"));
    assert_eq!(m.body.in_reply_to, 7);
    assert_eq!(m.body.msg_id, 0);
    assert_eq!(m.body.typ, "");
    assert_eq!(m.body.extra.get("type"), Some(&Value::String("echo_ok".into())));
    assert_eq!(m.body.extra.get("echo"), Some(&Value::String("hi".into())));

    // a response that names its type keeps it
    let m = reply_message(req.clone(), obj(&[("type", Value::String("error".into()))])).unwrap();
    assert_eq!(m.body.extra.get("type"), Some(&Value::String("error".into())));

    // a request without type gets no type
    let m = reply_message(request("", 3), obj(&[])).unwrap();
    assert!(m.body.extra.is_empty());

    // a response that is no object is refused
    let r = reply_message(req, Value::from(3));
    assert_eq!(
        r,
        Err(Failure::Other("response object has invalid serde_json::Value kind".to_string()))
    );
}

#[test]
fn send_adds_nothing() {
    let req = request("echo", 7);
    let m = send_message(req.clone(), obj(&[("a", Value::Bool(true))])).unwrap();
    assert_eq!((m.src.as_str(), m.dest.as_str()), ("n1", "c1"));
    assert_eq!(m.body.in_reply_to, 0);
    assert_eq!(Value::Object(m.body.extra), obj(&[("a", Value::Bool(true))]));
    assert!(send_message(req, Value::Null).is_err());
}

#[test]
fn init_is_answered_with_init_ok() {
    let m = init_ok_message(request("init", 1));
    assert_eq!((m.src.as_str(), m.dest.as_str()), ("n1", "c1"));
    assert_eq!(
        Value::Object(m.body.extra),
        obj(&[("in_reply_to", Value::from(1u64)), ("type", Value::String("init_ok".into()))])
    );
}

#[test]
fn rpc_requests_are_numbered_and_claimed() {
    let mut runtime: RuntimeState<&'static str> = RuntimeState::new();
    runtime.set_membership_state(example("n0", &["n0", "n1"])).unwrap();
    let req = runtime.rpc_request("n1".to_string(), obj(&[("type", Value::String("read".into()))])).unwrap();
    assert_eq!((req.src.as_str(), req.dest.as_str(), req.body.msg_id), ("n0", "n1", 1));
    runtime.insert_rpc_sender(req.body.msg_id, "waiter");

    // the remote node answers
    let mut answered = req.clone();
    std::mem::swap(&mut answered.src, &mut answered.dest);
    let reply = reply_message(answered, obj(&[("value", Value::from(5))])).unwrap();
    assert_eq!(reply.body.in_reply_to, 1);
    match runtime.route(reply) {
        Incoming::Response(sender, m) => {
            assert_eq!(sender, "waiter");
            assert_eq!(m.body.extra.get("value"), Some(&Value::from(5)));
        }
        _ => panic!("the reply must reach the call"),
    }
    assert_eq!(runtime.release_rpc_sender(1), None);

    // an answer to nothing is unclaimed, "init" and others are told apart
    let mut late = request("read_ok", 0);
    late.body.in_reply_to = 9;
    assert!(matches!(runtime.route(late), Incoming::Unclaimed(_)));
    assert!(matches!(runtime.route(request("init", 1)), Incoming::Init(_)));
    assert!(matches!(runtime.route(request("echo", 2)), Incoming::Request(_)));

    // the next call gets the next id; a non-object request is refused
    assert!(runtime.rpc_request("n1".to_string(), Value::Null).is_err());
    let next = runtime.rpc_request("n1".to_string(), obj(&[])).unwrap();
    assert_eq!(next.body.msg_id, 2);
}

#[test]
fn done_answers_unsupported_types() {
    assert_eq!(done_outcome(&request("init", 1)), Ok(()));
    assert_eq!(done_outcome(&request("topology", 1)), Err(Error::NotSupported("topology".into())));
}

#[test]
fn only_unsupported_types_are_not_fatal() {
    assert!(!is_fatal(&Failure::Protocol(Error::NotSupported("x".into()))));
    assert!(is_fatal(&Failure::Protocol(Error::Crash)));
    assert!(is_fatal(&Failure::Other("IOFailingNode: process failed".into())));
}

#[test]
fn read_loop_steps() {
    assert_eq!(run_step(RunEvent::Line("   ".to_string())), RunAction::Skip);
    assert_eq!(run_step(RunEvent::Line(String::new())), RunAction::Skip);
    let line = r#"{"src":"c0","dest":"n0","body":{"type":"echo","msg_id":1}}"#.to_string();
    assert_eq!(run_step(RunEvent::Line(line.clone())), RunAction::Dispatch(line));
    assert_eq!(run_step(RunEvent::InputClosed), RunAction::Finish);
    assert_eq!(run_step(RunEvent::FatalFailure), RunAction::Finish);
}

#[test]
fn echo_reply_keeps_the_echo() {
    let mut req = request("echo", 1);
    req.body.extra.insert("echo".to_string(), Value::String("Please echo 35".into()));
    let resp = obj(&[
        ("type", Value::String("echo_ok".into())),
        ("msg_id", Value::from(1u64)),
        ("echo", Value::String("Please echo 35".into())),
    ]);
    let m = reply_message(req, resp.clone()).unwrap();
    assert_eq!((m.src.as_str(), m.dest.as_str(), m.body.in_reply_to), ("n1", "c1", 1));
    assert_eq!(Value::Object(m.body.extra), resp);
}

#[test]
fn run_result_prefers_the_latest_seen() {
    assert_eq!(run_result::<u8>(None, None, None), None);
    assert_eq!(run_result(Some(1), None, Some(3)), Some(1));
    assert_eq!(run_result(Some(1), Some(2), Some(3)), Some(2));
    assert_eq!(run_result(None, None, Some(3)), Some(3));
}

#[test]
fn echo_demo_limit() {
    assert!(!echo_limit_reached(0));
    assert!(!echo_limit_reached(9));
    assert!(echo_limit_reached(10));
    assert!(echo_limit_reached(11));
}

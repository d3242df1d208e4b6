//! The decisions of a node runtime: message ids, cluster membership, the table
//! of calls that wait for a response, what each incoming message is, and the
//! messages a node sends back.

use vstd::prelude::*;
use vstd::string::StringExecFns;
use std::collections::HashMap;
use crate::error::Error;
use crate::json::{
    JsonFields, json_fields, json_contains_key, json_insert, json_into_object, json_map_new,
    json_object_of, json_string, json_string_of, json_u64, json_u64_of,
};
use crate::protocol::{Message, MessageBody, InitMessageBody};
use crate::rpc::Failure;
use crate::text::{str_eq, is_blank, is_blank_text, is_whitespace_char};

verus! {

broadcast use vstd::std_specs::hash::group_hash_axioms;

/// The node's own id and the ids of all nodes of the cluster.
#[derive(Clone, Debug, PartialEq, Eq)]
pub struct MembershipState {
    pub node_id: String,
    pub nodes: Vec<String>,
}

impl Default for MembershipState {
    fn default() -> (m: Self)
        ensures
            m.node_id@ == Seq::<char>::empty(),
            m.nodes@ == Seq::<String>::empty(),
    {
        MembershipState { node_id: String::new(), nodes: Vec::new() }
    }
}

/// A handler that accepts every message and answers none.
#[derive(Default, Copy, Clone, PartialEq, Eq, Debug)]
pub struct BlackHoleNode {}

/// A handler that fails on every message.
#[derive(Default, Copy, Clone, PartialEq, Eq, Debug)]
pub struct IOFailingNode {}

/// A handler that answers every request with an empty reply.
#[derive(Default, Copy, Clone, PartialEq, Eq, Debug)]
pub struct EchoNode {}

/// What an incoming message is to the runtime.
pub enum Incoming<S> {
    /// The response to a pending call, with the sender that the call waits on.
    Response(S, Message),
    /// A response to no pending call.
    Unclaimed(Message),
    /// The "init" message that tells the node who it is.
    Init(Message),
    /// Any other request, for the node's handler.
    Request(Message),
}

/// The state of a node runtime: the next message id, the membership once it is
/// known, and the senders of the calls that wait for a response, by message id.
pub struct RuntimeState<S> {
    msg_id: u64,
    membership: Option<MembershipState>,
    rpc: HashMap<u64, S>,
}

/// The error text of a second membership.
pub open spec fn membership_inited_text() -> Seq<char> {
    "membership is inited: AlreadyInitializedError"@
}

/// The error text of a response that is not a JSON object.
pub open spec fn invalid_kind_text() -> Seq<char> {
    "response object has invalid serde_json::Value kind"@
}

/// The id after `id`, as the counter wraps.
pub open spec fn id_after(id: u64) -> u64 {
    if id == u64::MAX { 0 } else { (id + 1) as u64 }
}

/// What an incoming message is, given the calls that wait for a response.
pub open spec fn routed<S>(pending: Map<u64, S>, msg: Message) -> Incoming<S> {
    if msg.body.in_reply_to > 0 {
        if pending.contains_key(msg.body.in_reply_to) {
            Incoming::Response(pending[msg.body.in_reply_to], msg)
        } else {
            Incoming::Unclaimed(msg)
        }
    } else if msg.body.typ@ == "init"@ {
        Incoming::Init(msg)
    } else {
        Incoming::Request(msg)
    }
}

/// The calls that still wait after a message came in: a response ends the call it answers.
pub open spec fn pending_after_route<S>(pending: Map<u64, S>, msg: Message) -> Map<u64, S> {
    if msg.body.in_reply_to > 0 {
        pending.remove(msg.body.in_reply_to)
    } else {
        pending
    }
}

/// The membership after a request to set it to `state`: only the first takes effect.
pub open spec fn membership_after(
    current: Option<MembershipState>,
    state: MembershipState,
) -> Option<MembershipState> {
    match current {
        Some(m) => Some(m),
        None => Some(state),
    }
}

impl<S> RuntimeState<S> {
    /// The id that the next outgoing message gets.
    pub closed spec fn next_id(self) -> u64 {
        self.msg_id
    }

    /// The membership, once it is set.
    pub closed spec fn membership(self) -> Option<MembershipState> {
        self.membership
    }

    /// The calls that wait for a response, by message id.
    pub closed spec fn pending(self) -> Map<u64, S> {
        self.rpc@
    }

    /// The node's own id: empty until the membership is set.
    pub open spec fn spec_node_id(self) -> Seq<char> {
        match self.membership() {
            Some(m) => m.node_id@,
            None => Seq::empty(),
        }
    }

    pub fn new() -> (s: Self)
        ensures
            s.next_id() == 1,
            s.membership() is None,
            s.pending() == Map::<u64, S>::empty(),
    {
        RuntimeState { msg_id: 1, membership: None, rpc: HashMap::new() }
    }

    /// Hands out the next message id.
    pub fn next_msg_id(&mut self) -> (id: u64)
        ensures
            id == old(self).next_id(),
            final(self).next_id() == id_after(id),
            final(self).membership() == old(self).membership(),
            final(self).pending() == old(self).pending(),
    {
        let id = self.msg_id;
        self.msg_id = if id == u64::MAX { 0 } else { id + 1 };
        id
    }

    pub fn node_id(&self) -> (id: &str)
        ensures
            id@ == self.spec_node_id(),
    {
        proof {
            reveal_strlit("");
        }
        match &self.membership {
            Some(m) => m.node_id.as_str(),
            None => "",
        }
    }

    pub fn nodes(&self) -> (nodes: &[String])
        ensures
            nodes@ == match self.membership() {
                Some(m) => m.nodes@,
                None => Seq::<String>::empty(),
            },
    {
        match &self.membership {
            Some(m) => m.nodes.as_slice(),
            None => &[],
        }
    }

    /// Sets the membership, which can be done once; a new node starts its
    /// message ids at 1.
    pub fn set_membership_state(&mut self, state: MembershipState) -> (r: Result<(), Failure>)
        ensures
            final(self).membership() == membership_after(old(self).membership(), state),
            old(self).membership() is None ==> {
                &&& r is Ok
                &&& final(self).membership() == Some(state)
                &&& final(self).next_id() == 1
            },
            old(self).membership() is Some ==> {
                &&& r matches Err(Failure::Other(t)) && t@ == membership_inited_text()
                &&& final(self).membership() == old(self).membership()
                &&& final(self).next_id() == old(self).next_id()
            },
            final(self).pending() == old(self).pending(),
    {
        if self.membership.is_some() {
            proof {
                reveal_strlit("membership is inited: AlreadyInitializedError");
            }
            return Err(Failure::Other(String::from_str("membership is inited: AlreadyInitializedError")));
        }
        self.membership = Some(state);
        self.msg_id = 1;
        Ok(())
    }

    /// Takes the membership from an "init" message.
    pub fn process_init(&mut self, init: InitMessageBody) -> (r: Result<(), Failure>)
        ensures
            old(self).membership() is None ==> {
                &&& r is Ok
                &&& final(self).membership() == Some(
                    MembershipState { node_id: init.node_id, nodes: init.nodes },
                )
                &&& final(self).next_id() == 1
            },
            old(self).membership() is Some ==> {
                &&& r matches Err(Failure::Other(t)) && t@ == membership_inited_text()
                &&& final(self).membership() == old(self).membership()
                &&& final(self).next_id() == old(self).next_id()
            },
            final(self).pending() == old(self).pending(),
    {
        self.set_membership_state(MembershipState { node_id: init.node_id, nodes: init.nodes })
    }

    /// Registers the sender that a call with this message id waits on.
    pub fn insert_rpc_sender(&mut self, msg_id: u64, sender: S)
        ensures
            final(self).pending() == old(self).pending().insert(msg_id, sender),
            final(self).next_id() == old(self).next_id(),
            final(self).membership() == old(self).membership(),
    {
        self.rpc.insert(msg_id, sender);
    }

    /// Takes the sender of the call with this message id out of the table.
    pub fn release_rpc_sender(&mut self, msg_id: u64) -> (r: Option<S>)
        ensures
            final(self).pending() == old(self).pending().remove(msg_id),
            old(self).pending().contains_key(msg_id) ==> r == Some(old(self).pending()[msg_id]),
            !old(self).pending().contains_key(msg_id) ==> r is None,
            final(self).next_id() == old(self).next_id(),
            final(self).membership() == old(self).membership(),
    {
        self.rpc.remove(&msg_id)
    }

    /// What an incoming message is: a response (it answers some message id),
    /// claimed by the call that waits on it; the "init" message; or a request.
    pub fn route(&mut self, msg: Message) -> (r: Incoming<S>)
        ensures
            r == routed(old(self).pending(), msg),
            final(self).pending() == pending_after_route(old(self).pending(), msg),
            final(self).next_id() == old(self).next_id(),
            final(self).membership() == old(self).membership(),
    {
        if msg.body.in_reply_to > 0 {
            match self.release_rpc_sender(msg.body.in_reply_to) {
                Some(sender) => Incoming::Response(sender, msg),
                None => Incoming::Unclaimed(msg),
            }
        } else if str_eq(msg.get_type(), "init") {
            Incoming::Init(msg)
        } else {
            Incoming::Request(msg)
        }
    }

    /// The request message of a call to `to`: from this node, with the next
    /// message id, and with the fields of `req`, which must be a JSON object.
    pub fn rpc_request(&mut self, to: String, req: serde_json::Value) -> (r: Result<
        Message,
        Failure,
    >)
        ensures
            (forall|f: JsonFields| req != json_object_of(f)) ==> {
                &&& r matches Err(Failure::Other(t)) && t@ == invalid_kind_text()
                &&& final(self).next_id() == old(self).next_id()
            },
            (exists|f: JsonFields| req == json_object_of(f)) ==> {
                &&& r matches Ok(m) && {
                    &&& m.src@ == old(self).spec_node_id()
                    &&& m.dest == to
                    &&& m.body.typ@ == Seq::<char>::empty()
                    &&& m.body.msg_id == old(self).next_id()
                    &&& m.body.in_reply_to == 0
                    &&& carries_fields_of(m, req)
                }
                &&& final(self).next_id() == id_after(old(self).next_id())
            },
            final(self).membership() == old(self).membership(),
            final(self).pending() == old(self).pending(),
    {
        let extra = match json_into_object(req) {
            Some(m) => m,
            None => {
                proof {
                    reveal_strlit("response object has invalid serde_json::Value kind");
                }
                return Err(
                    Failure::Other(
                        String::from_str("response object has invalid serde_json::Value kind"),
                    ),
                );
            },
        };
        let id = self.next_msg_id();
        let src = String::from_str(self.node_id());
        Ok(Message { src, dest: to, body: MessageBody::from_extra(extra).and_msg_id(id) })
    }
}

/// The fields of a reply: those of the response, with the type of the request
/// and "_ok" under "type" when the response names no type and the request has one.
pub open spec fn reply_fields(req: Message, resp: JsonFields) -> JsonFields {
    if !resp.contains_key("type"@) && req.body.typ@.len() > 0 {
        resp.insert("type"@, json_string_of(req.body.typ@ + "_ok"@))
    } else {
        resp
    }
}

/// Whether `m` is the reply to `req` with the fields of the object `resp`:
/// whatever entries make up `resp`, the reply carries `reply_fields` of them.
pub open spec fn is_reply(req: Message, resp: serde_json::Value, m: Message) -> bool {
    &&& exists|f: JsonFields| resp == json_object_of(f)
    &&& m.src == req.dest
    &&& m.dest == req.src
    &&& m.body.typ@ == Seq::<char>::empty()
    &&& m.body.msg_id == 0
    &&& m.body.in_reply_to == req.body.msg_id
    &&& forall|f: JsonFields| #[trigger] json_object_of(f) == resp ==> json_fields(m.body.extra)
        == reply_fields(req, f)
}

/// Whether the message carries exactly the fields of the object `v`.
pub open spec fn carries_fields_of(m: Message, v: serde_json::Value) -> bool {
    &&& v == json_object_of(json_fields(m.body.extra))
    &&& forall|f: JsonFields| #[trigger] json_object_of(f) == v ==> json_fields(m.body.extra) == f
}

/// The reply to `req` with the fields of `resp`, which must be a JSON object:
/// sent back to the request's source, in reply to its message id, and typed
/// after the request when the response names no type.
pub fn reply_message(req: Message, resp: serde_json::Value) -> (r: Result<Message, Failure>)
    ensures
        (forall|f: JsonFields| resp != json_object_of(f)) ==> (r matches Err(Failure::Other(t))
            && t@ == invalid_kind_text()),
        (exists|f: JsonFields| resp == json_object_of(f)) ==> (r matches Ok(m) && is_reply(
            req,
            resp,
            m,
        )),
{
    let mut extra = match json_into_object(resp) {
        Some(m) => m,
        None => {
            proof {
                reveal_strlit("response object has invalid serde_json::Value kind");
            }
            return Err(
                Failure::Other(String::from_str("response object has invalid serde_json::Value kind")),
            );
        },
    };
    if !json_contains_key(&extra, "type") && !req.body.typ.as_str().is_empty() {
        let typ = req.body.typ.clone().concat("_ok");
        json_insert(&mut extra, String::from_str("type"), json_string(typ));
    }
    let msg_id = req.body.msg_id;
    Ok(Message {
        src: req.dest,
        dest: req.src,
        body: MessageBody::from_extra(extra).with_reply_to(msg_id),
    })
}

/// The message to `req`'s source with exactly the fields of `resp`, which must
/// be a JSON object: no type is added and it answers no message id.
pub fn send_message(req: Message, resp: serde_json::Value) -> (r: Result<Message, Failure>)
    ensures
        (forall|f: JsonFields| resp != json_object_of(f)) ==> (r matches Err(Failure::Other(t))
            && t@ == invalid_kind_text()),
        (exists|f: JsonFields| resp == json_object_of(f)) ==> (r matches Ok(m) && {
            &&& carries_fields_of(m, resp)
            &&& m.src == req.dest
            &&& m.dest == req.src
            &&& m.body.typ@ == Seq::<char>::empty()
            &&& m.body.msg_id == 0
            &&& m.body.in_reply_to == 0
        }),
{
    let extra = match json_into_object(resp) {
        Some(m) => m,
        None => {
            proof {
                reveal_strlit("response object has invalid serde_json::Value kind");
            }
            return Err(
                Failure::Other(String::from_str("response object has invalid serde_json::Value kind")),
            );
        },
    };
    Ok(Message { src: req.dest, dest: req.src, body: MessageBody::from_extra(extra) })
}

/// The fields of the answer to an "init" message with this message id.
pub open spec fn init_ok_fields(msg_id: u64) -> JsonFields {
    JsonFields::empty().insert("in_reply_to"@, json_u64_of(msg_id)).insert(
        "type"@,
        json_string_of("init_ok"@),
    )
}

/// The answer to an "init" message: sent back to its source, with the fields
/// `in_reply_to` (the init's message id) and `type` "init_ok".
pub fn init_ok_message(req: Message) -> (m: Message)
    ensures
        m.src == req.dest,
        m.dest == req.src,
        m.body.typ@ == Seq::<char>::empty(),
        m.body.msg_id == 0,
        m.body.in_reply_to == 0,
        json_fields(m.body.extra) == init_ok_fields(req.body.msg_id),
{
    let mut extra = json_map_new();
    json_insert(&mut extra, String::from_str("in_reply_to"), json_u64(req.body.msg_id));
    json_insert(&mut extra, String::from_str("type"), json_string(String::from_str("init_ok")));
    proof {
        reveal_strlit("init_ok");
    }
    Message { src: req.dest, dest: req.src, body: MessageBody::from_extra(extra) }
}

/// How a handler ends on a message it does not know: "init" needs nothing more;
/// any other type is not supported, and that error is answered.
pub fn done_outcome(message: &Message) -> (r: Result<(), Error>)
    ensures
        message.body.typ@ == "init"@ ==> r is Ok,
        message.body.typ@ != "init"@ ==> (r matches Err(Error::NotSupported(t)) && t
            == message.body.typ),
{
    if str_eq(message.get_type(), "init") {
        Ok(())
    } else {
        Err(Error::NotSupported(message.body.typ.clone()))
    }
}

/// Whether a failure stops the node.
pub open spec fn fatal(failure: Failure) -> bool {
    !(failure matches Failure::Protocol(Error::NotSupported(_)))
}

/// Whether a failed request stops the node: every failure does but a message
/// type that the handler does not support.
pub fn is_fatal(failure: &Failure) -> (r: bool)
    ensures
        r == fatal(*failure),
{
    match failure {
        Failure::Protocol(Error::NotSupported(_)) => false,
        _ => true,
    }
}

/// What the read loop of a node meets next.
pub enum RunEvent {
    /// A line of input.
    Line(String),
    /// The end of the input.
    InputClosed,
    /// A request failed in a way that stops the node.
    FatalFailure,
}

/// What the read loop does about it.
#[derive(Debug, PartialEq, Eq)]
pub enum RunAction {
    /// Reads on: the line holds no message.
    Skip,
    /// Handles the line as a request, in a task of its own.
    Dispatch(String),
    /// Stops reading and waits for the tasks in flight.
    Finish,
}

/// Whether `a` is what the read loop does on `event`.
pub open spec fn steps_to(event: RunEvent, a: RunAction) -> bool {
    match event {
        RunEvent::Line(l) => if is_blank_text(l@) {
            a == RunAction::Skip
        } else {
            a == RunAction::Dispatch(l)
        },
        RunEvent::InputClosed => a == RunAction::Finish,
        RunEvent::FatalFailure => a == RunAction::Finish,
    }
}

/// The read loop's step: blank lines are skipped, other lines dispatched; the
/// end of input and the first failure that stops the node end the loop.
pub fn run_step(event: RunEvent) -> (a: RunAction)
    ensures
        steps_to(event, a),
{
    match event {
        RunEvent::Line(l) => if is_blank(l.as_str()) {
            RunAction::Skip
        } else {
            RunAction::Dispatch(l)
        },
        RunEvent::InputClosed => RunAction::Finish,
        RunEvent::FatalFailure => RunAction::Finish,
    }
}

/// The failure a run of the node ends with, from what it saw: a failure that
/// came while the tasks in flight were awaited; else the one that stopped the
/// read loop; else one left over once all tasks were done; else none.
pub fn run_result<F>(stopped_loop: Option<F>, while_waiting: Option<F>, left_over: Option<F>) -> (r:
    Option<F>)
    ensures
        r == (if while_waiting is Some {
            while_waiting
        } else if stopped_loop is Some {
            stopped_loop
        } else {
            left_over
        }),
{
    match while_waiting {
        Some(f) => Some(f),
        None => match stopped_loop {
            Some(f) => Some(f),
            None => left_over,
        },
    }
}

/// Whether the demo echo node answers with an error: once ten echoes were
/// answered, that is from the eleventh on.
pub fn echo_limit_reached(answered_before: i32) -> (r: bool)
    ensures
        r == (answered_before >= 10),
{
    answered_before >= 10
}

/// The `k`-th message id handed out after `id`.
pub open spec fn id_after_n(id: u64, k: nat) -> u64
    decreases k,
{
    if k == 0 {
        id
    } else {
        id_after(id_after_n(id, (k - 1) as nat))
    }
}

/// Message ids count up by one: the `k`-th id after `id` is `id + k` as long as
/// that fits in a `u64`, so the ids handed out meanwhile are all distinct.
pub proof fn law_ids_count_up(id: u64, j: nat, k: nat)
    requires
        j < k,
        id + k <= u64::MAX,
    ensures
        id_after_n(id, k) == id + k,
        id_after_n(id, j) != id_after_n(id, k),
    decreases k,
{
    lemma_id_after_n(id, k);
    lemma_id_after_n(id, j);
}

proof fn lemma_id_after_n(id: u64, k: nat)
    requires
        id + k <= u64::MAX,
    ensures
        id_after_n(id, k) == id + k,
    decreases k,
{
    if k > 0 {
        lemma_id_after_n(id, (k - 1) as nat);
    }
}

/// A reply to the request of a call is claimed by the call that waits on it,
/// which then waits no more. (A request whose message id is 0 cannot be
/// answered this way: a reply to it reads as a request.)
pub proof fn law_reply_claimed_by_call<S>(
    pending: Map<u64, S>,
    req: Message,
    resp: serde_json::Value,
    reply: Message,
)
    requires
        pending.contains_key(req.body.msg_id),
        req.body.msg_id > 0,
        is_reply(req, resp, reply),
    ensures
        routed(pending, reply) == Incoming::Response(pending[req.body.msg_id], reply),
        pending_after_route(pending, reply) == pending.remove(req.body.msg_id),
{
}

/// A message that answers some id never reaches the handler, whether a call
/// waits for it or not.
pub proof fn law_responses_not_dispatched<S>(pending: Map<u64, S>, msg: Message)
    requires
        msg.body.in_reply_to > 0,
    ensures
        routed(pending, msg) is Response || routed(pending, msg) is Unclaimed,
{
}

/// Registering a call and ending it leaves the table as it was.
pub proof fn law_release_undoes_insert<S>(pending: Map<u64, S>, id: u64, sender: S)
    requires
        !pending.contains_key(id),
    ensures
        pending.insert(id, sender).contains_key(id),
        pending.insert(id, sender)[id] == sender,
        pending.insert(id, sender).remove(id) == pending,
{
    assert(pending.insert(id, sender).remove(id) =~= pending);
}

/// The membership is set once: after the first, later ones change nothing.
pub proof fn law_membership_set_once(
    current: Option<MembershipState>,
    first: MembershipState,
    later: MembershipState,
)
    ensures
        membership_after(membership_after(current, first), later) == membership_after(
            current,
            first,
        ),
        current is None ==> membership_after(membership_after(current, first), later) == Some(
            first,
        ),
{
}

/// A message type that the handler does not know is answered with code 10 and
/// does not stop the node.
pub proof fn law_unsupported_not_fatal(t: String)
    ensures
        Error::NotSupported(t).spec_code() == 10,
        !fatal(Failure::Protocol(Error::NotSupported(t))),
{
}

/// Every message that answers a pending call goes to that call, whatever its
/// type and its own id, and ends it; an answer to no pending call reaches no
/// call and no handler; with no id answered, "init" goes to membership setup
/// and every other message to the handler.
pub proof fn law_route<S>(pending: Map<u64, S>, msg: Message)
    ensures
        msg.body.in_reply_to > 0 && pending.contains_key(msg.body.in_reply_to) ==> {
            &&& routed(pending, msg) == Incoming::Response(pending[msg.body.in_reply_to], msg)
            &&& pending_after_route(pending, msg) == pending.remove(msg.body.in_reply_to)
        },
        msg.body.in_reply_to > 0 && !pending.contains_key(msg.body.in_reply_to) ==> {
            &&& routed(pending, msg) == Incoming::<S>::Unclaimed(msg)
            &&& pending_after_route(pending, msg) == pending
        },
        msg.body.in_reply_to == 0 ==> pending_after_route(pending, msg) == pending,
        msg.body.in_reply_to == 0 && msg.body.typ@ == "init"@ ==> routed(pending, msg)
            == Incoming::<S>::Init(msg),
        msg.body.in_reply_to == 0 && msg.body.typ@ != "init"@ ==> routed(pending, msg)
            == Incoming::<S>::Request(msg),
{
    if msg.body.in_reply_to > 0 && !pending.contains_key(msg.body.in_reply_to) {
        assert(pending.remove(msg.body.in_reply_to) =~= pending);
    }
}

/// The fields of a reply: every field of the response but "type" is carried
/// unchanged and no other is added; a "type" of the response is kept; without
/// one, the reply is typed as the request's type followed by "_ok", unless the
/// request has no type, and then it has none either. It goes back to the
/// request's source, in reply to the request's id.
pub proof fn law_reply_fields(req: Message, resp: serde_json::Value, m: Message, f: JsonFields)
    requires
        is_reply(req, resp, m),
        resp == json_object_of(f),
    ensures
        m.src == req.dest,
        m.dest == req.src,
        m.body.in_reply_to == req.body.msg_id,
        forall|k: Seq<char>|
            k != "type"@ ==> {
                &&& json_fields(m.body.extra).contains_key(k) == f.contains_key(k)
                &&& f.contains_key(k) ==> #[trigger] json_fields(m.body.extra)[k] == f[k]
            },
        f.contains_key("type"@) ==> {
            &&& json_fields(m.body.extra).contains_key("type"@)
            &&& json_fields(m.body.extra)["type"@] == f["type"@]
        },
        !f.contains_key("type"@) && req.body.typ@.len() > 0 ==> {
            &&& json_fields(m.body.extra).contains_key("type"@)
            &&& json_fields(m.body.extra)["type"@] == json_string_of(req.body.typ@ + "_ok"@)
        },
        !f.contains_key("type"@) && req.body.typ@.len() == 0 ==> !json_fields(
            m.body.extra,
        ).contains_key("type"@),
{
    assert(json_fields(m.body.extra) == reply_fields(req, f));
}

/// A line with a character that is not whitespace, anywhere in it, is
/// handled as it is; a line of nothing but whitespace (the empty line too) is
/// skipped; the end of input and a failure that stops the node end the loop.
pub proof fn law_run_step(event: RunEvent, a: RunAction)
    requires
        steps_to(event, a),
    ensures
        event matches RunEvent::Line(l) ==> ((exists|i: int|
            0 <= i < l@.len() && !is_whitespace_char(#[trigger] l@[i])) ==> a
            == RunAction::Dispatch(l)),
        event matches RunEvent::Line(l) ==> ((forall|i: int|
            0 <= i < l@.len() ==> is_whitespace_char(#[trigger] l@[i])) ==> a == RunAction::Skip),
        event is InputClosed ==> a == RunAction::Finish,
        event is FatalFailure ==> a == RunAction::Finish,
{
}

} // verus!

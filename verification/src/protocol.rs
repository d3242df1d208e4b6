//! The messages of the Maelstrom protocol.

use vstd::prelude::*;
use vstd::string::StringExecFns;
use crate::error::Error;
use crate::json::{
    JsonFields, json_fields, json_map_new, json_map_clone, json_insert, json_string,
    json_string_of, json_object, json_object_of,
};
use crate::text::{int_text, i32_text, str_eq};

verus! {

/// A message sent from the `src` node to the `dest` node.
#[derive(Debug, PartialEq, Eq)]
pub struct Message {
    pub src: String,
    pub dest: String,
    pub body: MessageBody,
}

/// The reserved keys of a message body, and all the other fields of the body in `extra`.
#[derive(Debug, PartialEq, Eq)]
pub struct MessageBody {
    /// Message type.
    pub typ: String,
    /// Optional. Message identifier that is unique to the source node.
    pub msg_id: u64,
    /// Optional. For request/response, the msg_id of the request.
    pub in_reply_to: u64,
    /// All the fields not mentioned here.
    pub extra: serde_json::Map<String, serde_json::Value>,
}

/// The body of the "init" message.
#[derive(Clone, Debug, PartialEq, Eq)]
pub struct InitMessageBody {
    /// Node id.
    pub node_id: String,
    /// Neighbours.
    pub nodes: Vec<String>,
}

/// The body of an error response.
#[derive(Clone, Debug, PartialEq, Eq)]
pub struct ErrorMessageBody {
    /// Message type.
    pub typ: String,
    /// Error code.
    pub code: i32,
    /// Error message.
    pub text: String,
}

/// Whether an optional id is absent: zero ids are left out of a serialized body.
pub fn u64_zero_by_ref(num: &u64) -> (r: bool)
    ensures
        r == (*num == 0),
{
    *num == 0
}

/// The text that an error response carries for an error.
pub open spec fn error_response_text(e: Error) -> Seq<char> {
    match e {
        Error::NotSupported(t) => t@ + " message type is not supported"@,
        Error::Custom(id, t) => "error("@ + int_text(id as int) + "): "@ + t@,
        _ => e.spec_description(),
    }
}

/// The entries of `raw()`: the extra fields with the type set.
pub open spec fn raw_fields(body: MessageBody) -> JsonFields {
    json_fields(body.extra).insert("type"@, json_string_of(body.typ@))
}

impl Message {
    pub fn get_type(&self) -> (t: &str)
        ensures
            t@ == self.body.typ@,
    {
        self.body.typ.as_str()
    }
}

impl Clone for Message {
    fn clone(&self) -> (m: Self)
        ensures
            m.src == self.src,
            m.dest == self.dest,
            m.body.typ == self.body.typ,
            m.body.msg_id == self.body.msg_id,
            m.body.in_reply_to == self.body.in_reply_to,
            json_fields(m.body.extra) == json_fields(self.body.extra),
    {
        Message { src: self.src.clone(), dest: self.dest.clone(), body: self.body.clone() }
    }
}

impl Clone for MessageBody {
    fn clone(&self) -> (b: Self)
        ensures
            b.typ == self.typ,
            b.msg_id == self.msg_id,
            b.in_reply_to == self.in_reply_to,
            json_fields(b.extra) == json_fields(self.extra),
    {
        MessageBody {
            typ: self.typ.clone(),
            msg_id: self.msg_id,
            in_reply_to: self.in_reply_to,
            extra: json_map_clone(&self.extra),
        }
    }
}

impl Default for Message {
    fn default() -> (m: Self)
        ensures
            m.src@ == Seq::<char>::empty(),
            m.dest@ == Seq::<char>::empty(),
            m.body.typ@ == Seq::<char>::empty(),
            m.body.msg_id == 0,
            m.body.in_reply_to == 0,
            json_fields(m.body.extra) == JsonFields::empty(),
    {
        Message { src: String::new(), dest: String::new(), body: MessageBody::new() }
    }
}

impl MessageBody {
    /// An empty body: no type, no ids, no fields.
    pub fn new() -> (b: Self)
        ensures
            b.typ@ == Seq::<char>::empty(),
            b.msg_id == 0,
            b.in_reply_to == 0,
            json_fields(b.extra) == JsonFields::empty(),
    {
        MessageBody { typ: String::new(), msg_id: 0, in_reply_to: 0, extra: json_map_new() }
    }

    pub fn with_type(self, typ: &str) -> (b: Self)
        ensures
            b.typ@ == typ@,
            b.msg_id == self.msg_id,
            b.in_reply_to == self.in_reply_to,
            b.extra == self.extra,
    {
        let mut t = self;
        t.typ = String::from_str(typ);
        t
    }

    pub fn with_reply_to(self, in_reply_to: u64) -> (b: Self)
        ensures
            b.typ == self.typ,
            b.msg_id == self.msg_id,
            b.in_reply_to == in_reply_to,
            b.extra == self.extra,
    {
        let mut t = self;
        t.in_reply_to = in_reply_to;
        t
    }

    pub fn and_msg_id(self, msg_id: u64) -> (b: Self)
        ensures
            b.typ == self.typ,
            b.msg_id == msg_id,
            b.in_reply_to == self.in_reply_to,
            b.extra == self.extra,
    {
        let mut t = self;
        t.msg_id = msg_id;
        t
    }

    /// A body that holds the given fields and nothing else.
    pub fn from_extra(extra: serde_json::Map<String, serde_json::Value>) -> (b: Self)
        ensures
            b.typ@ == Seq::<char>::empty(),
            b.msg_id == 0,
            b.in_reply_to == 0,
            b.extra == extra,
    {
        MessageBody { typ: String::new(), msg_id: 0, in_reply_to: 0, extra }
    }

    pub fn is_error(&self) -> (r: bool)
        ensures
            r == (self.typ@ == "error"@),
    {
        str_eq(self.typ.as_str(), "error")
    }

    /// The body as one JSON object: the extra fields, with the type under "type".
    pub fn raw(&self) -> (v: serde_json::Value)
        ensures
            v == json_object_of(raw_fields(*self)),
    {
        let mut raw = json_map_clone(&self.extra);
        json_insert(&mut raw, String::from_str("type"), json_string(self.typ.clone()));
        json_object(raw)
    }
}

impl Default for MessageBody {
    fn default() -> (b: Self)
        ensures
            b.typ@ == Seq::<char>::empty(),
            b.msg_id == 0,
            b.in_reply_to == 0,
            json_fields(b.extra) == JsonFields::empty(),
    {
        MessageBody::new()
    }
}

impl Default for InitMessageBody {
    fn default() -> (b: Self)
        ensures
            b.node_id@ == Seq::<char>::empty(),
            b.nodes@ == Seq::<String>::empty(),
    {
        InitMessageBody { node_id: String::new(), nodes: Vec::new() }
    }
}

impl ErrorMessageBody {
    /// Whether this body is the error response for `e`.
    pub open spec fn answers(self, e: Error) -> bool {
        &&& self.typ@ == "error"@
        &&& self.code == e.spec_code()
        &&& self.text@ == error_response_text(e)
    }

    pub fn new(code: i32, text: &str) -> (b: Self)
        ensures
            b.typ@ == "error"@,
            b.code == code,
            b.text@ == text@,
    {
        ErrorMessageBody { typ: String::from_str("error"), code, text: String::from_str(text) }
    }

    /// The error response that carries the error's own description as its text.
    pub fn from_description(err: &Error) -> (b: Self)
        ensures
            b.typ@ == "error"@,
            b.code == err.spec_code(),
            b.text@ == err.spec_description(),
    {
        ErrorMessageBody {
            typ: String::from_str("error"),
            code: err.code(),
            text: String::from_str(err.description()),
        }
    }

    pub fn from_error(err: Error) -> (b: Self)
        ensures
            b.answers(err),
    {
        Self::from(err)
    }
}

impl Default for ErrorMessageBody {
    fn default() -> (b: Self)
        ensures
            b.typ@ == Seq::<char>::empty(),
            b.code == 0,
            b.text@ == Seq::<char>::empty(),
    {
        ErrorMessageBody { typ: String::new(), code: 0, text: String::new() }
    }
}

impl From<Error> for ErrorMessageBody {
    fn from(value: Error) -> (b: Self)
        ensures
            b.answers(value),
    {
        let code = value.code();
        let text = match value {
            Error::NotSupported(t) => t.concat(" message type is not supported"),
            Error::Custom(id, t) => {
                let mut s = String::from_str("error(");
                let digits = i32_text(id);
                s.append(digits.as_str());
                s.append("): ");
                s.append(t.as_str());
                s
            },
            o => String::from_str(o.description()),
        };
        ErrorMessageBody { typ: String::from_str("error"), code, text }
    }
}

impl vstd::std_specs::convert::FromSpecImpl<Error> for ErrorMessageBody {
    open spec fn obeys_from_spec() -> bool {
        false
    }

    open spec fn from_spec(v: Error) -> Self {
        choose|b: ErrorMessageBody| b.answers(v)
    }
}

} // verus!

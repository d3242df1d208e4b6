//! Outcomes of remote calls: error responses and the failures a call ends in.

use vstd::prelude::*;
use vstd::string::StringExecFns;
use crate::error::{Error, is_reserved_code};
use crate::json::{json_fields, json_get, json_as_i64, json_as_i64_of, json_as_str, json_as_str_of};
use crate::protocol::{ErrorMessageBody, Message, MessageBody};

verus! {

/// Why an operation failed: with an error of the protocol, or for another
/// reason, given by its message.
#[derive(Debug, Clone, PartialEq, Eq)]
pub enum Failure {
    Protocol(Error),
    Other(String),
}

/// The code that an error response carries: its "code" field, when that is an
/// integer in the range of `i32`.
pub open spec fn body_code(body: MessageBody) -> Option<i32> {
    let fields = json_fields(body.extra);
    if fields.contains_key("code"@) {
        match json_as_i64_of(fields["code"@]) {
            Some(c) => if i32::MIN <= c <= i32::MAX { Some(c as i32) } else { None },
            None => None,
        }
    } else {
        None
    }
}

/// The text that an error response carries: its "text" field when that is a
/// string, else the empty text.
pub open spec fn body_text(body: MessageBody) -> Seq<char> {
    let fields = json_fields(body.extra);
    if fields.contains_key("text"@) {
        match json_as_str_of(fields["text"@]) {
            Some(t) => t,
            None => Seq::empty(),
        }
    } else {
        Seq::empty()
    }
}

/// Whether `e` is the error that an error response stands for: the error of its
/// code and text, or `Crash` when it carries no usable code.
pub open spec fn error_of_body(body: MessageBody, e: Error) -> bool {
    match body_code(body) {
        Some(code) => e.decodes(code, body_text(body)),
        None => e == Error::Crash,
    }
}

/// The error that an error response stands for.
pub fn error_from_body(body: &MessageBody) -> (e: Error)
    ensures
        error_of_body(*body, e),
{
    let text = match json_get(&body.extra, "text") {
        Some(v) => match json_as_str(v) {
            Some(t) => String::from_str(t),
            None => String::new(),
        },
        None => String::new(),
    };
    match json_get(&body.extra, "code") {
        Some(v) => match json_as_i64(v) {
            Some(c) => {
                if -2147483648i64 <= c && c <= 2147483647i64 {
                    Error::from_code(c as i32, text)
                } else {
                    Error::Crash
                }
            },
            None => Error::Crash,
        },
        None => Error::Crash,
    }
}

/// The outcome of a call from its response: the response itself, or the error
/// that an error response stands for.
pub fn rpc_msg_type(m: Message) -> (r: Result<Message, Error>)
    ensures
        m.body.typ@ == "error"@ ==> (r matches Err(e) && error_of_body(m.body, e)),
        m.body.typ@ != "error"@ ==> r == Ok::<Message, Error>(m),
{
    if m.body.is_error() {
        Err(error_from_body(&m.body))
    } else {
        Ok(m)
    }
}

/// Whether an outcome failed with an error of the protocol.
pub fn is_rpc_error<T>(t: &Result<T, Failure>) -> (r: bool)
    ensures
        r == (t matches Err(Failure::Protocol(_))),
{
    match t {
        Ok(_) => false,
        Err(Failure::Protocol(_)) => true,
        Err(Failure::Other(_)) => false,
    }
}

/// The error response for an outcome that failed with an error of the protocol.
pub fn rpc_err_to_response<T>(t: &Result<T, Failure>) -> (r: Option<ErrorMessageBody>)
    ensures
        match t {
            Err(Failure::Protocol(e)) => r matches Some(b) && b.answers(*e),
            _ => r is None,
        },
{
    match t {
        Ok(_) => None,
        Err(Failure::Protocol(e)) => Some(ErrorMessageBody::from_error(e.duplicate())),
        Err(Failure::Other(_)) => None,
    }
}

/// What a call that waits for its response meets.
pub enum CallEvent {
    /// The response was already taken by an earlier wait.
    Taken,
    /// The response came.
    Response(Message),
    /// The response can no longer come: its sender is gone.
    Closed,
    /// The deadline passed first.
    Deadline,
}

/// How a call ends.
#[derive(Debug, PartialEq, Eq)]
pub enum CallEnd {
    /// With the response.
    Answer(Message),
    /// With an error of the protocol.
    Refused(Error),
    /// With the channel closed before any response came.
    Closed,
}

/// How a call ends on what it meets: a response that is no error is the
/// answer; an error response, the error it stands for; a response already
/// taken, `Abort`; a passed deadline, `Timeout`.
pub fn call_end(event: CallEvent) -> (r: CallEnd)
    ensures
        match event {
            CallEvent::Taken => r == CallEnd::Refused(Error::Abort),
            CallEvent::Deadline => r == CallEnd::Refused(Error::Timeout),
            CallEvent::Closed => r == CallEnd::Closed,
            CallEvent::Response(m) => if m.body.typ@ == "error"@ {
                r matches CallEnd::Refused(e) && error_of_body(m.body, e)
            } else {
                r == CallEnd::Answer(m)
            },
        },
{
    match event {
        CallEvent::Taken => CallEnd::Refused(Error::Abort),
        CallEvent::Deadline => CallEnd::Refused(Error::Timeout),
        CallEvent::Closed => CallEnd::Closed,
        CallEvent::Response(m) => match rpc_msg_type(m) {
            Ok(m) => CallEnd::Answer(m),
            Err(e) => CallEnd::Refused(e),
        },
    }
}

/// An error response whose "code" is an integer in the range of `i32` stands
/// for the error of that code, whatever the code (0, the timeout, included):
/// the code is kept, it is a custom error exactly when the protocol does not
/// reserve the code, and a not-supported or custom error keeps the response's
/// text. `Crash` comes of a response without such a code only, or of code 13.
pub proof fn law_error_code_kept(body: MessageBody, e: Error, c: i64)
    requires
        error_of_body(body, e),
        json_fields(body.extra).contains_key("code"@),
        json_as_i64_of(json_fields(body.extra)["code"@]) == Some(c),
        i32::MIN <= c <= i32::MAX,
    ensures
        e.spec_code() == c,
        (e is Custom) == !is_reserved_code(c as i32),
        (c == 10 || !is_reserved_code(c as i32)) ==> e.spec_description() == body_text(body),
        e == Error::Crash ==> c == 13,
        c == 0 ==> e == Error::Timeout,
{
}

/// An error response that carries no usable code stands for `Crash`.
pub proof fn law_error_without_code(body: MessageBody, e: Error)
    requires
        error_of_body(body, e),
        !json_fields(body.extra).contains_key("code"@) || json_as_i64_of(
            json_fields(body.extra)["code"@],
        ) is None,
    ensures
        e == Error::Crash,
{
}

} // verus!

//! Building blocks of a node for the Maelstrom distributed-systems workbench:
//! the protocol's messages and errors, the decisions a node runtime takes on
//! each line it reads, the pending-call table of outgoing calls, the key/value
//! service protocol and the wait-group counter.

pub mod error;
pub mod json;
pub mod kv;
pub mod protocol;
pub mod rpc;
pub mod runtime;
pub mod text;
pub mod waitgroup;

pub use error::Error;
pub use rpc::{Failure, is_rpc_error, rpc_err_to_response, rpc_msg_type};
pub use runtime::{BlackHoleNode, EchoNode, IOFailingNode, MembershipState};

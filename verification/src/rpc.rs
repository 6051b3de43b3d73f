//! The JSON-RPC request as the daemon reads it.
use vstd::prelude::*;

use crate::json::JsonValue;

verus! {

/// A JSON-RPC call: the method, its parameters, and the id that a reply
/// echoes. A call without an id is a notification and gets no reply.
#[derive(Debug)]
pub struct JsonRpcRequest {
    pub method: String,
    pub params: Option<JsonValue>,
    pub id: Option<JsonValue>,
}

} // verus!

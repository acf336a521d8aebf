//! The errors that a fetch task resolves with.

use vstd::prelude::*;

verus! {

/// What a call fails with: the network failed, the response could not be
/// understood, or the server answered with a JSON-RPC error.
#[derive(Debug)]
pub enum RpcError {
    /// Sending the request or reading the response failed; the text describes the cause.
    Transport(String),
    /// The response was not a single JSON-RPC response envelope.
    InvalidResponse(String),
    /// The server answered with a JSON-RPC error object.
    Rpc(jsonrpc_core::Error),
}

impl RpcError {
    /// Whether this error comes from the network rather than from the protocol.
    pub fn is_transport(&self) -> (r: bool)
        ensures
            r == (self is Transport),
    {
        match self {
            RpcError::Transport(_) => true,
            _ => false,
        }
    }
}

} // verus!

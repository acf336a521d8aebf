//! Reading a JSON-RPC response envelope into a call's outcome.

use vstd::prelude::*;
use crate::error::RpcError;

verus! {

/// What a response text holds, as far as a single call is concerned.
pub enum Envelope {
    /// A single success envelope, with its result.
    Success(serde_json::Value),
    /// A single failure envelope, with its error object.
    Failure(jsonrpc_core::Error),
    /// A batch of envelopes, where one was expected.
    Batch,
    /// Text that is no JSON-RPC response; the description comes from the parser.
    Malformed(String),
}

/// The envelope that jsonrpc_core reads from a response text.
pub uninterp spec fn envelope_of(text: Seq<char>) -> Envelope;

/// The description of a batch where a single response was expected.
pub open spec fn batch_message() -> Seq<char> {
    "Expected single, got batch."@
}

/// Whether `r` is the outcome of a call whose response held `env`.
pub open spec fn is_outcome(env: Envelope, r: Result<serde_json::Value, RpcError>) -> bool {
    match env {
        Envelope::Success(v) => r == Ok::<serde_json::Value, RpcError>(v),
        Envelope::Failure(e) => r == Err::<serde_json::Value, RpcError>(RpcError::Rpc(e)),
        Envelope::Batch => r matches Err(RpcError::InvalidResponse(d)) && d@ == batch_message(),
        Envelope::Malformed(d) => r == Err::<serde_json::Value, RpcError>(RpcError::InvalidResponse(d)),
    }
}

/// Relies on jsonrpc_core::Response::from_json, which parses the text with
/// serde_json and reads an empty text as an empty batch.
#[verifier::external_body]
fn parse_envelope(text: &str) -> (r: Envelope)
    ensures
        r == envelope_of(text@),
        text@.len() == 0 ==> r is Batch,
{
    match jsonrpc_core::Response::from_json(text) {
        Ok(jsonrpc_core::Response::Single(jsonrpc_core::Output::Success(s))) => Envelope::Success(s.result),
        Ok(jsonrpc_core::Response::Single(jsonrpc_core::Output::Failure(f))) => Envelope::Failure(f.error),
        Ok(jsonrpc_core::Response::Batch(_)) => Envelope::Batch,
        Err(e) => Envelope::Malformed(format!("{:?}", e)),
    }
}

/// The outcome of a call whose response held `env`: the result of a success,
/// the error object of a failure, and an invalid-response error otherwise.
pub fn to_result(env: Envelope) -> (r: Result<serde_json::Value, RpcError>)
    ensures
        is_outcome(env, r),
{
    match env {
        Envelope::Success(v) => Ok(v),
        Envelope::Failure(e) => Err(RpcError::Rpc(e)),
        Envelope::Batch => {
            let d = String::from_str("Expected single, got batch.");
            assert(d@ == batch_message());
            Err(RpcError::InvalidResponse(d))
        },
        Envelope::Malformed(d) => Err(RpcError::InvalidResponse(d)),
    }
}

/// The outcome of a call whose response body is `text`.
pub fn decode_response(text: &str) -> (r: Result<serde_json::Value, RpcError>)
    ensures
        is_outcome(envelope_of(text@), r),
{
    let env = parse_envelope(text);
    to_result(env)
}

} // verus!

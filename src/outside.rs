//! Outside types that the library carries through its logic.

use vstd::prelude::*;

verus! {

/// A JSON value of serde_json, carried opaquely (parameters and results).
#[verifier::external_type_specification]
#[verifier::external_body]
pub struct ExValue(serde_json::Value);

/// The error object of a JSON-RPC failure envelope, carried opaquely.
#[verifier::external_type_specification]
#[verifier::external_body]
pub struct ExRpcErrorObject(jsonrpc_core::Error);

/// hyper's blocking HTTP client, which owns the connection pool.
#[verifier::external_type_specification]
#[verifier::external_body]
pub struct ExClient(hyper::Client);

/// hyper's error type, which `Http::new` keeps in its signature.
#[verifier::external_type_specification]
#[verifier::external_body]
pub struct ExHyperError(hyper::Error);

/// hyper's pool configuration; its one field is the idle-connection bound.
#[verifier::external_type_specification]
pub struct ExPoolConfig(hyper::client::pool::Config);

/// Relies on hyper::Client::with_pool_config, which builds a client over a
/// fresh connection pool and cannot fail.
pub assume_specification[ hyper::Client::with_pool_config ](
    config: hyper::client::pool::Config,
) -> hyper::Client;

} // verus!

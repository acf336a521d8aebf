//! JSON-RPC over HTTP: request framing, response classification and a
//! single-shot fetch task, with their contracts.

pub mod error;
pub mod http;
pub mod outside;
pub mod request;
pub mod response;
pub mod task;

pub use error::RpcError;
pub use http::Http;
pub use task::FetchTask;

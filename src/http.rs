//! The HTTP transport: one pooled client and a request-id counter, shared by
//! every task it creates.

use std::sync::Arc;
use std::sync::atomic::{AtomicUsize, Ordering};
use vstd::prelude::*;
use crate::request::{build_request, request_text};
use crate::task::{FetchTask, Phase};

verus! {

/// The bound on idle connections that the pool keeps open for reuse.
pub const MAX_IDLE_CONNECTIONS: usize = 1024;

/// Relies on hyper::Client::set_redirect_policy with `FollowAll`: the client
/// then follows every redirect.
#[verifier::external_body]
fn follow_all_redirects(client: &mut hyper::Client) {
    client.set_redirect_policy(hyper::client::RedirectPolicy::FollowAll);
}

/// Whether hyper's URL parser accepts a text.
pub uninterp spec fn url_parses(url: Seq<char>) -> bool;

/// Relies on `hyper::Url::parse` (url's `Url::parse`): it accepts or refuses the
/// text, and a refusal is reported as hyper's `Error::Uri`.
#[verifier::external_body]
fn check_url(url: &str) -> (r: Result<(), hyper::Error>)
    ensures
        r is Ok <==> url_parses(url@),
{
    match hyper::Url::parse(url) {
        Ok(_) => Ok(()),
        Err(e) => Err(hyper::Error::Uri(e)),
    }
}

/// Relies on `Arc::clone`: a second handle to the same client.
#[verifier::external_body]
fn share_client(client: &Arc<hyper::Client>) -> (r: Arc<hyper::Client>)
    ensures
        r == *client,
{
    Arc::clone(client)
}

/// A JSON-RPC transport over HTTP to one URL.
pub struct Http {
    id: AtomicUsize,
    client: Arc<hyper::Client>,
    url: String,
}

impl Http {
    pub closed spec fn spec_url(&self) -> Seq<char> {
        self.url@
    }

    pub closed spec fn spec_client(&self) -> Arc<hyper::Client> {
        self.client
    }

    /// A transport to `url`, with a pool that keeps up to
    /// `MAX_IDLE_CONNECTIONS` idle connections and follows all redirects.
    /// Fails at once when `url` is no URL.
    pub fn new(url: &str) -> (r: Result<Http, hyper::Error>)
        ensures
            r is Ok <==> url_parses(url@),
            r matches Ok(h) ==> h.spec_url() == url@,
    {
        match check_url(url) {
            Ok(()) => {},
            Err(e) => {
                return Err(e);
            },
        }
        let mut client = hyper::Client::with_pool_config(
            hyper::client::pool::Config { max_idle: MAX_IDLE_CONNECTIONS },
        );
        follow_all_redirects(&mut client);
        Ok(Http { id: AtomicUsize::new(0), client: Arc::new(client), url: String::from_str(url) })
    }

    /// Prepares a call of `method` with `params`: takes the next request id and
    /// builds the request text. Nothing is sent until the task is driven.
    pub fn execute(&self, method: &str, params: Vec<serde_json::Value>) -> (r: FetchTask)
        ensures
            r.spec_phase() == Phase::Unstarted,
            r.spec_url() == self.spec_url(),
            r.spec_client() == self.spec_client(),
            r.spec_request() == request_text(r.spec_id(), method@, params@),
    {
        let id = self.id.fetch_add(1, Ordering::Relaxed);
        let request = build_request(id, method, &params);
        FetchTask::new(id, self.url.clone(), share_client(&self.client), request)
    }
}

} // verus!

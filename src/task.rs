//! The single-shot fetch task: one request, sent on the first drive only.

use std::sync::Arc;
use vstd::prelude::*;
use crate::error::RpcError;
use crate::response::{decode_response, envelope_of, is_outcome};

verus! {

/// Where a fetch task stands in its life.
#[derive(PartialEq, Eq, Structural, Clone, Copy, Debug)]
pub enum Phase {
    /// Created; nothing has been sent.
    Unstarted,
    /// The request is being sent and its response read.
    InFlight,
    /// The response was handled; the task never sends again.
    Completed,
}

/// What happens to a task: it is driven, or the exchange that a drive began ends.
pub enum TaskEvent {
    Drive,
    Finish,
}

/// Whether a drive of a task in phase `p` sends the request.
pub open spec fn drive_sends(p: Phase) -> bool {
    p is Unstarted
}

/// The phase after a drive.
pub open spec fn after_drive(p: Phase) -> Phase {
    if p is Unstarted { Phase::InFlight } else { p }
}

/// The phase after the exchange ends.
pub open spec fn after_finish(p: Phase) -> Phase {
    if p is InFlight { Phase::Completed } else { p }
}

/// The phase after one event.
pub open spec fn step(p: Phase, e: TaskEvent) -> Phase {
    match e {
        TaskEvent::Drive => after_drive(p),
        TaskEvent::Finish => after_finish(p),
    }
}

/// How many requests a task in phase `p` sends over the events `evs`.
pub open spec fn sends(p: Phase, evs: Seq<TaskEvent>) -> nat
    decreases evs.len(),
{
    if evs.len() == 0 {
        0
    } else {
        let here: nat = if evs[0] is Drive && drive_sends(p) { 1 } else { 0 };
        here + sends(step(p, evs[0]), evs.drop_first())
    }
}

/// A task that has left `Unstarted` sends nothing more, whatever happens to it.
pub proof fn lemma_started_sends_nothing(p: Phase, evs: Seq<TaskEvent>)
    requires
        !(p is Unstarted),
    ensures
        sends(p, evs) == 0,
    decreases evs.len(),
{
    if evs.len() > 0 {
        lemma_started_sends_nothing(step(p, evs[0]), evs.drop_first());
    }
}

/// A task sends its request at most once, over any sequence of drives and
/// completions; a completed task sends nothing.
pub proof fn lemma_single_shot(evs: Seq<TaskEvent>)
    ensures
        sends(Phase::Unstarted, evs) <= 1,
        sends(Phase::Completed, evs) == 0,
    decreases evs.len(),
{
    lemma_started_sends_nothing(Phase::Completed, evs);
    if evs.len() > 0 {
        if evs[0] is Drive {
            lemma_started_sends_nothing(Phase::InFlight, evs.drop_first());
        } else {
            lemma_single_shot(evs.drop_first());
        }
    }
}

/// Whether `r` is what a task resolves with when its exchange ended with
/// `outcome`: the response body, or the description of a network failure.
pub open spec fn is_fetch_outcome(
    outcome: Result<String, String>,
    r: Result<serde_json::Value, RpcError>,
) -> bool {
    match outcome {
        Ok(body) => is_outcome(envelope_of(body@), r),
        Err(d) => r == Err::<serde_json::Value, RpcError>(RpcError::Transport(d)),
    }
}

/// One JSON-RPC call over HTTP: its id, the target URL, the shared client and
/// the request text, built when the call was made and sent on the first drive.
pub struct FetchTask {
    id: usize,
    url: String,
    client: Arc<hyper::Client>,
    request: String,
    phase: Phase,
}

impl FetchTask {
    pub closed spec fn spec_id(&self) -> nat {
        self.id as nat
    }

    pub closed spec fn spec_url(&self) -> Seq<char> {
        self.url@
    }

    pub closed spec fn spec_client(&self) -> Arc<hyper::Client> {
        self.client
    }

    pub closed spec fn spec_request(&self) -> Seq<char> {
        self.request@
    }

    pub closed spec fn spec_phase(&self) -> Phase {
        self.phase
    }

    /// Whether two tasks agree on everything but their phase.
    pub open spec fn same_call(&self, other: &FetchTask) -> bool {
        &&& self.spec_id() == other.spec_id()
        &&& self.spec_url() == other.spec_url()
        &&& self.spec_client() == other.spec_client()
        &&& self.spec_request() == other.spec_request()
    }

    /// A task that has not been driven yet.
    pub fn new(id: usize, url: String, client: Arc<hyper::Client>, request: String) -> (r: FetchTask)
        ensures
            r.spec_id() == id,
            r.spec_url() == url@,
            r.spec_client() == client,
            r.spec_request() == request@,
            r.spec_phase() == Phase::Unstarted,
    {
        FetchTask { id, url, client, request, phase: Phase::Unstarted }
    }

    pub fn id(&self) -> (r: usize)
        ensures
            r == self.spec_id(),
    {
        self.id
    }

    pub fn url(&self) -> (r: &str)
        ensures
            r@ == self.spec_url(),
    {
        self.url.as_str()
    }

    pub fn client(&self) -> (r: &Arc<hyper::Client>)
        ensures
            *r == self.spec_client(),
    {
        &self.client
    }

    pub fn request(&self) -> (r: &str)
        ensures
            r@ == self.spec_request(),
    {
        self.request.as_str()
    }

    pub fn phase(&self) -> (r: Phase)
        ensures
            r == self.spec_phase(),
    {
        self.phase
    }

    /// Drives the task: true when the caller must now send the request, which
    /// happens on the first drive only.
    pub fn begin(&mut self) -> (send: bool)
        ensures
            send == drive_sends(old(self).spec_phase()),
            final(self).spec_phase() == after_drive(old(self).spec_phase()),
            final(self).same_call(old(self)),
    {
        match self.phase {
            Phase::Unstarted => {
                self.phase = Phase::InFlight;
                true
            },
            _ => false,
        }
    }

    /// Ends the exchange that `begin` started, with the response body or the
    /// description of the network failure, and gives what the task resolves with.
    pub fn finish(&mut self, outcome: Result<String, String>) -> (r: Result<
        serde_json::Value,
        RpcError,
    >)
        requires
            old(self).spec_phase() is InFlight,
        ensures
            final(self).spec_phase() == after_finish(old(self).spec_phase()),
            final(self).same_call(old(self)),
            is_fetch_outcome(outcome, r),
    {
        self.phase = Phase::Completed;
        match outcome {
            Ok(body) => decode_response(body.as_str()),
            Err(d) => Err(RpcError::Transport(d)),
        }
    }
}

} // verus!

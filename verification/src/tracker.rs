//! The request tracker: owns every human-input request from creation to its
//! terminal state, derives each request's priority once, and correlates a
//! human answer back to the owning agent.

use vstd::prelude::*;

use crate::ext::lower_of;
use crate::models::HumanInputRequest;
use crate::models::RequestPriority;
use crate::models::RequestStatus;
use crate::models::RequestType;
use crate::models::priority_of;
use crate::models::req_eq;
use crate::text::str_eq;

verus! {

/// The ids in `reqs` are pairwise distinct.
pub open spec fn unique_req_ids(reqs: Seq<HumanInputRequest>) -> bool {
    forall|i: int, j: int|
        0 <= i < j < reqs.len() ==> reqs[i].id@ != reqs[j].id@
}

/// Some request in `reqs` has id `id`.
pub open spec fn has_req(reqs: Seq<HumanInputRequest>, id: Seq<char>) -> bool {
    exists|i: int| 0 <= i < reqs.len() && reqs[i].id@ == id
}

/// Some request in `reqs` has id `id` and is still pending.
pub open spec fn has_pending(reqs: Seq<HumanInputRequest>, id: Seq<char>) -> bool {
    exists|i: int|
        0 <= i < reqs.len() && reqs[i].id@ == id && reqs[i].status == RequestStatus::Pending
}

/// The index of the request with id `id`; meaningful when `has_req` holds and
/// the ids are distinct.
pub open spec fn req_index(reqs: Seq<HumanInputRequest>, id: Seq<char>) -> int {
    choose|i: int| 0 <= i < reqs.len() && reqs[i].id@ == id
}

/// `reqs` with the request at `i` completed.
pub open spec fn completed_at(reqs: Seq<HumanInputRequest>, i: int) -> Seq<HumanInputRequest> {
    reqs.update(i, (HumanInputRequest { status: RequestStatus::Completed, ..reqs[i] }))
}

/// The tracker of human-input requests. Completed and timed-out requests are
/// retained as history; nothing is ever removed.
pub struct RequestTracker {
    pub requests: Vec<HumanInputRequest>,
}

impl RequestTracker {
    /// Ids are pairwise distinct.
    pub open spec fn wf(self) -> bool {
        unique_req_ids(self.requests@)
    }

    /// An empty tracker.
    pub fn new() -> (r: RequestTracker)
        ensures
            r.wf(),
            r.requests@.len() == 0,
    {
        RequestTracker { requests: Vec::new() }
    }

    /// The index of the request with id `id`, if any.
    fn find(&self, id: &str) -> (r: Option<usize>)
        requires
            self.wf(),
        ensures
            match r {
                Some(i) => i < self.requests@.len() && self.requests@[i as int].id@ == id@
                    && i as int == req_index(self.requests@, id@),
                None => !has_req(self.requests@, id@),
            },
    {
        let n = self.requests.len();
        for i in 0..n
            invariant
                self.wf(),
                n == self.requests@.len(),
                forall|k: int| 0 <= k < i ==> self.requests@[k].id@ != id@,
        {
            if str_eq(self.requests[i].id.as_str(), id) {
                proof {
                    assert(has_req(self.requests@, id@));
                    let c = req_index(self.requests@, id@);
                    assert(self.requests@[c].id@ == id@);
                    assert(c == i as int);
                }
                return Some(i);
            }
        }
        None
    }

    /// Store a new request built from the given draft values: its status
    /// starts `Pending` and its priority is derived from the type and the
    /// message. Returns a copy of the stored request, or `None`, changing
    /// nothing, when a request with that id already exists.
    pub fn create(
        &mut self,
        id: String,
        agent_id: String,
        agent_name: String,
        request_type: RequestType,
        message: String,
        options: Vec<String>,
        context: Option<String>,
        timeout_seconds: u32,
        timestamp: String,
    ) -> (r: Option<HumanInputRequest>)
        requires
            old(self).wf(),
        ensures
            final(self).wf(),
            r is Some <==> !has_req(old(self).requests@, id@),
            r is Some ==> final(self).requests@ == old(self).requests@.push(
                (HumanInputRequest {
                    id: id,
                    agent_id: agent_id,
                    agent_name: agent_name,
                    request_type: request_type,
                    message: message,
                    options: options,
                    context: context,
                    timeout_seconds: timeout_seconds,
                    timestamp: timestamp,
                    status: RequestStatus::Pending,
                    priority: priority_of(request_type, lower_of(message@)),
                }),
            ),
            r matches Some(copy) ==> req_eq(copy, final(self).requests@.last()),
            r is None ==> *final(self) == *old(self),
    {
        let found = self.find(id.as_str());
        match found {
            Some(_) => None,
            None => {
                let priority = RequestPriority::from_request_type_and_message(
                    &request_type,
                    message.as_str(),
                );
                let req = HumanInputRequest {
                    id,
                    agent_id,
                    agent_name,
                    request_type,
                    message,
                    options,
                    context,
                    timeout_seconds,
                    timestamp,
                    status: RequestStatus::Pending,
                    priority,
                };
                let copy = req.duplicate();
                self.requests.push(req);
                proof {
                    assert forall|i: int, j: int|
                        0 <= i < j < self.requests@.len() implies self.requests@[i].id@
                        != self.requests@[j].id@ by {
                        if j < self.requests@.len() - 1 {
                            assert(unique_req_ids(old(self).requests@));
                        } else {
                            assert(!has_req(old(self).requests@, self.requests@[j].id@));
                        }
                    }
                }
                Some(copy)
            },
        }
    }

    /// Answer the pending request with id `request_id`: it becomes
    /// `Completed` — a terminal state — and the owning agent's id is
    /// returned so the caller can route the response. Fails, changing
    /// nothing, when no pending request has that id.
    pub fn complete(&mut self, request_id: &str) -> (r: Option<String>)
        requires
            old(self).wf(),
        ensures
            final(self).wf(),
            r is Some <==> has_pending(old(self).requests@, request_id@),
            r matches Some(aid) ==> aid@ == old(self).requests@[req_index(
                old(self).requests@,
                request_id@,
            )].agent_id@ && final(self).requests@ == completed_at(
                old(self).requests@,
                req_index(old(self).requests@, request_id@),
            ),
            r is None ==> *final(self) == *old(self),
    {
        let found = self.find(request_id);
        match found {
            Some(i) => {
                if match self.requests[i].status {
                    RequestStatus::Pending => true,
                    _ => false,
                } {
                    let mut req = self.requests.remove(i);
                    let aid = req.agent_id.clone();
                    req.status = RequestStatus::Completed;
                    self.requests.insert(i, req);
                    proof {
                        assert(self.requests@ =~= completed_at(old(self).requests@, i as int));
                        assert forall|x: int, y: int|
                            0 <= x < y < self.requests@.len() implies self.requests@[x].id@
                            != self.requests@[y].id@ by {
                            assert(unique_req_ids(old(self).requests@));
                            assert(self.requests@[x].id@ == old(self).requests@[x].id@);
                            assert(self.requests@[y].id@ == old(self).requests@[y].id@);
                        }
                    }
                    Some(aid)
                } else {
                    proof {
                        assert forall|k: int|
                            0 <= k < self.requests@.len() && self.requests@[k].id@ == request_id@
                            implies self.requests@[k].status != RequestStatus::Pending by {
                            assert(unique_req_ids(self.requests@));
                            assert(k == i as int);
                        }
                    }
                    None
                }
            },
            None => None,
        }
    }

    /// The most recent requests, newest first, at most `limit` of them.
    pub fn list_recent(&self, limit: usize) -> (r: Vec<HumanInputRequest>)
        requires
            self.wf(),
        ensures
            r@.len() == if limit <= self.requests@.len() {
                limit as int
            } else {
                self.requests@.len() as int
            },
            forall|k: int|
                0 <= k < r@.len() ==> req_eq(
                    #[trigger] r@[k],
                    self.requests@[self.requests@.len() - 1 - k],
                ),
    {
        let mut r: Vec<HumanInputRequest> = Vec::new();
        let n = self.requests.len();
        let count = if limit < n {
            limit
        } else {
            n
        };
        for k in 0..count
            invariant
                n == self.requests@.len(),
                count <= n,
                count == if limit < n {
                    limit as int
                } else {
                    n as int
                },
                r@.len() == k,
                forall|t: int|
                    0 <= t < k ==> req_eq(#[trigger] r@[t], self.requests@[n - 1 - t]),
        {
            r.push(self.requests[n - 1 - k].duplicate());
        }
        r
    }
}

/// Completion is one-shot: once the pending request with id `id` has been
/// completed, no pending request with that id remains, so a second completion
/// attempt for the same id must fail.
pub proof fn lemma_complete_only_once(reqs: Seq<HumanInputRequest>, id: Seq<char>)
    requires
        unique_req_ids(reqs),
        has_pending(reqs, id),
    ensures
        !has_pending(completed_at(reqs, req_index(reqs, id)), id),
{
    let i = req_index(reqs, id);
    let after = completed_at(reqs, i);
    assert(reqs[i].id@ == id);
    assert forall|k: int|
        0 <= k < after.len() && after[k].id@ == id implies after[k].status
        != RequestStatus::Pending by {
        if k != i {
            assert(reqs[k].id@ == id);
            assert(false);
        }
    }
}

/// Every id the tracker holds is distinct from every other: requests are
/// never removed, so an id is unique across the tracker's lifetime.
pub proof fn lemma_request_ids_unique(t: &RequestTracker)
    requires
        t.wf(),
    ensures
        forall|i: int, j: int|
            0 <= i < j < t.requests@.len() ==> t.requests@[i].id@ != t.requests@[j].id@,
{
}

} // verus!

//! The approval workflow: requests created when a command is classified as
//! risky, and the state machine that resolves them.  A request is `pending`
//! until an administrator approves or denies it; the transition is taken exactly
//! once, and a duplicate resolution reports the existing terminal status
//! without changing anything.

use vstd::prelude::*;

verus! {

/// Status of an approval request.  Monotonic: once it leaves `Pending` it
/// never returns.
#[derive(Clone, Copy, Debug, PartialEq, Eq, Structural)]
pub enum ApprovalStatus {
    Pending,
    Approved,
    Denied,
}

/// A persisted approval request.  Never deleted: the store is an audit trail.
#[derive(Clone, Debug)]
pub struct ApprovalRequest {
    /// Identity of the request; equals its position in the store.
    pub id: u64,
    /// The command awaiting execution, already normalized.
    pub command: String,
    /// Who asked for the command.
    pub requester_id: i64,
    /// Where the requester is notified of the outcome.
    pub requester_chat_id: i64,
    pub status: ApprovalStatus,
    /// Captured output, present only once the request is approved and run.
    pub result: Option<String>,
    /// Creation time, seconds since the epoch, supplied by the caller.
    pub created_at: i64,
}

/// The collection of all approval requests, ordered by creation.
pub struct ApprovalStore {
    requests: Vec<ApprovalRequest>,
}

impl View for ApprovalStore {
    type V = Seq<ApprovalRequest>;

    closed spec fn view(&self) -> Seq<ApprovalRequest> {
        self.requests@
    }
}

/// The request as it stands after a resolution: the status becomes terminal,
/// the captured output is recorded, everything else is kept.
pub open spec fn resolved_request(
    req: ApprovalRequest,
    approved: bool,
    result: Option<String>,
) -> ApprovalRequest {
    ApprovalRequest {
        status: if approved {
            ApprovalStatus::Approved
        } else {
            ApprovalStatus::Denied
        },
        result,
        ..req
    }
}

/// What a resolution attempt decides, before any effect is applied.
pub enum ResolveDecision {
    /// The resolver is not in the administrator set; nothing changes.
    NotAuthorized,
    /// No request has this id; nothing changes.
    NotFound,
    /// The request already carries a terminal status, reported back unchanged.
    AlreadyResolved { status: ApprovalStatus },
    /// A pending request was approved: run this command, then record the
    /// outcome with `resolve_apply`.
    RunApproved { command: String },
    /// A pending request was denied: record it with `resolve_apply`.
    RecordDenial,
}

/// The decision taken for a resolution attempt: authorization first, then
/// lookup, then the idempotence check, and only then the transition.
pub open spec fn spec_resolve_decision(
    reqs: Seq<ApprovalRequest>,
    id: u64,
    approved: bool,
    resolver_id: i64,
    reviewers: Seq<i64>,
) -> ResolveDecision {
    if !reviewers.contains(resolver_id) {
        ResolveDecision::NotAuthorized
    } else if id >= reqs.len() {
        ResolveDecision::NotFound
    } else if !(reqs[id as int].status is Pending) {
        ResolveDecision::AlreadyResolved { status: reqs[id as int].status }
    } else if approved {
        ResolveDecision::RunApproved { command: reqs[id as int].command }
    } else {
        ResolveDecision::RecordDenial
    }
}

impl ApprovalStore {
    /// Ids equal positions, so lookups are exact.
    pub open spec fn wf(&self) -> bool {
        forall|i: int| 0 <= i < self@.len() ==> #[trigger] self@[i].id == i as u64
    }

    /// An empty store.
    pub fn new() -> (r: ApprovalStore)
        ensures
            r@ =~= Seq::<ApprovalRequest>::empty(),
            r.wf(),
    {
        ApprovalStore { requests: Vec::new() }
    }

    pub fn len(&self) -> (r: usize)
        ensures
            r == self@.len(),
    {
        self.requests.len()
    }

    /// Record a new pending request and hand back its id.
    pub fn create(
        &mut self,
        command: &str,
        requester_id: i64,
        requester_chat_id: i64,
        now: i64,
    ) -> (id: u64)
        requires
            old(self).wf(),
            old(self)@.len() < u64::MAX,
        ensures
            final(self).wf(),
            id == old(self)@.len(),
            final(self)@.len() == old(self)@.len() + 1,
            final(self)@.subrange(0, old(self)@.len() as int) =~= old(self)@,
            final(self)@.last().id == id,
            final(self)@.last().command@ == command@,
            final(self)@.last().requester_id == requester_id,
            final(self)@.last().requester_chat_id == requester_chat_id,
            final(self)@.last().status is Pending,
            final(self)@.last().result is None,
            final(self)@.last().created_at == now,
    {
        let id = self.requests.len() as u64;
        let req = ApprovalRequest {
            id,
            command: command.to_owned(),
            requester_id,
            requester_chat_id,
            status: ApprovalStatus::Pending,
            result: None,
            created_at: now,
        };
        self.requests.push(req);
        id
    }

    /// Look a request up by id.
    pub fn get(&self, id: u64) -> (r: Option<&ApprovalRequest>)
        requires
            self.wf(),
        ensures
            match r {
                Some(req) => id < self@.len() && *req == self@[id as int],
                None => id >= self@.len(),
            },
    {
        if id < self.requests.len() as u64 {
            Some(&self.requests[id as usize])
        } else {
            None
        }
    }

    /// Decide a resolution attempt without changing anything.
    pub fn resolve_decide(
        &self,
        id: u64,
        approved: bool,
        resolver_id: i64,
        reviewers: &Vec<i64>,
    ) -> (r: ResolveDecision)
        requires
            self.wf(),
        ensures
            r == spec_resolve_decision(self@, id, approved, resolver_id, reviewers@),
    {
        let mut authorized = false;
        let mut i: usize = 0;
        while i < reviewers.len()
            invariant
                i <= reviewers@.len(),
                authorized == exists|j: int| 0 <= j < i && reviewers@[j] == resolver_id,
            decreases reviewers@.len() - i,
        {
            if reviewers[i] == resolver_id {
                authorized = true;
            }
            i = i + 1;
        }
        if !authorized {
            return ResolveDecision::NotAuthorized;
        }
        if id >= self.requests.len() as u64 {
            return ResolveDecision::NotFound;
        }
        let req = &self.requests[id as usize];
        match req.status {
            ApprovalStatus::Pending => {
                if approved {
                    ResolveDecision::RunApproved { command: req.command.clone() }
                } else {
                    ResolveDecision::RecordDenial
                }
            },
            _ => ResolveDecision::AlreadyResolved { status: req.status },
        }
    }

    /// Take the one transition of the state machine: a pending request
    /// becomes approved or denied, with its captured output recorded.
    pub fn resolve_apply(&mut self, id: u64, approved: bool, result: Option<String>)
        requires
            old(self).wf(),
            id < old(self)@.len(),
            old(self)@[id as int].status is Pending,
        ensures
            final(self).wf(),
            final(self)@ =~= old(self)@.update(
                id as int,
                resolved_request(old(self)@[id as int], approved, result),
            ),
    {
        let n = self.requests.len();
        proof {
            assert(id < n);
        }
        let idx = id as usize;
        let req = &self.requests[idx];
        let updated = ApprovalRequest {
            id: req.id,
            command: req.command.clone(),
            requester_id: req.requester_id,
            requester_chat_id: req.requester_chat_id,
            status: if approved {
                ApprovalStatus::Approved
            } else {
                ApprovalStatus::Denied
            },
            result,
            created_at: req.created_at,
        };
        self.requests[idx] = updated;
    }
}

/// Resolution is idempotent: once a first resolution has set a terminal
/// status, any further attempt — approve or deny, by any administrator — decides
/// `AlreadyResolved` with the status the first resolution set, and the store
/// is not touched again.
pub proof fn lemma_resolution_idempotent(
    reqs: Seq<ApprovalRequest>,
    id: u64,
    approved1: bool,
    result1: Option<String>,
    approved2: bool,
    resolver2: i64,
    reviewers: Seq<i64>,
)
    requires
        id < reqs.len(),
        reqs[id as int].status is Pending,
        reviewers.contains(resolver2),
    ensures
        ({
            let after = reqs.update(id as int, resolved_request(reqs[id as int], approved1, result1));
            &&& after[id as int].status == if approved1 {
                ApprovalStatus::Approved
            } else {
                ApprovalStatus::Denied
            }
            &&& spec_resolve_decision(after, id, approved2, resolver2, reviewers)
                == (ResolveDecision::AlreadyResolved { status: after[id as int].status })
        }),
{
}

} // verus!

use vstd::prelude::*;

use crate::aln_shard::AlnShard;

verus! {

/// Ticket of a human-in-the-loop review.
#[derive(Clone, Debug)]
pub struct HitlTicket {
    pub ticket_id: String,
    pub shard_did: String,
}

#[derive(Clone, Copy, Debug, PartialEq, Eq, Structural)]
pub enum AppealDecision {
    Approved,
    Rejected,
    Modified,
}

/// External human-review workflow, provided by the caller. Its spec function
/// names what a call did; an implementation defines it.
pub trait GovernanceHooks {
    /// `ticket` is a ticket that these hooks issued for `shard` at `confidence`.
    spec fn issued(&self, shard: AlnShard, confidence: i64, ticket: HitlTicket) -> bool;

    /// Queues `shard` for human review; `confidence` is in millionths.
    fn enqueue_hitl(&self, shard: &AlnShard, confidence: i64) -> (ticket: HitlTicket)
        ensures
            self.issued(*shard, confidence, ticket),
    ;

    fn record_appeal(
        &self,
        ticket: &HitlTicket,
        human_did: &str,
        decision: AppealDecision,
        reason: &str,
    );
}

} // verus!

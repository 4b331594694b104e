use vstd::prelude::*;

use crate::aln_shard::AlnShard;
use crate::governance_hooks::{GovernanceHooks, HitlTicket};
use crate::nanopolygon::NanopolygonSafetyObject;

verus! {

/// Default model confidence, in millionths, at or above which a high-impact
/// action goes to human review.
pub const POWER_THRESHOLD: i64 = 920_000;

pub enum RouteDecision {
    Execute,
    QueueHitl(HitlTicket),
    Reject(&'static str),
}

/// Must an action on `np`, proposed with confidence `confidence` (in millionths),
/// go to human review? Only high-impact actions do: when the confidence reaches
/// `threshold`, or when the governance metadata asks for a human in the loop.
pub open spec fn escalates(np: NanopolygonSafetyObject, confidence: i64, threshold: i64) -> bool {
    np.impact_rating.spec_is_high_impact() && (confidence >= threshold
        || np.metadata.ai_rmf_profile.requires_human_in_loop)
}

/// Human-in-the-loop escalation router.
pub struct RoutingContext<'a, H: GovernanceHooks> {
    pub hooks: &'a H,
    /// Confidence threshold of escalation, in millionths.
    pub power_threshold: i64,
}

impl<'a, H: GovernanceHooks> RoutingContext<'a, H> {
    /// A router with the default threshold.
    pub fn new(hooks: &'a H) -> (r: Self)
        ensures
            r.hooks == hooks,
            r.power_threshold == POWER_THRESHOLD,
    {
        RoutingContext { hooks, power_threshold: POWER_THRESHOLD }
    }

    /// Executes, or queues a human-review ticket through the hooks; never rejects.
    pub fn decide(&self, shard: &AlnShard, model_confidence: i64) -> (r: RouteDecision)
        ensures
            escalates(shard.payload.nanopolygon.record(), model_confidence, self.power_threshold)
                ==> r is QueueHitl,
            !escalates(shard.payload.nanopolygon.record(), model_confidence, self.power_threshold)
                ==> r is Execute,
            r matches RouteDecision::QueueHitl(t) ==> self.hooks.issued(*shard, model_confidence, t),
    {
        let np = shard.payload.nanopolygon.inner();
        let is_high_impact = np.impact_rating.is_high_impact();
        if is_high_impact && model_confidence >= self.power_threshold {
            let ticket = self.hooks.enqueue_hitl(shard, model_confidence);
            return RouteDecision::QueueHitl(ticket);
        }
        if np.metadata.ai_rmf_profile.requires_human_in_loop && is_high_impact {
            let ticket = self.hooks.enqueue_hitl(shard, model_confidence);
            return RouteDecision::QueueHitl(ticket);
        }
        RouteDecision::Execute
    }
}

} // verus!

use vstd::prelude::*;

use crate::aln::{on_allow_list, routing_entry, AlnShard, RoutingDecision, RoutingPolicy};
use crate::audit::{appended, AuditEntry, AuditEvent, AuditSink};

verus! {

/// Execution enclave that runs optimization only on shards the routing policy admits.
pub struct VscArtemisEnclave;

impl VscArtemisEnclave {
    /// Enforces the routing policy before any optimization runs. An admitted
    /// shard adds an `enclave_accept` entry after the routing entry.
    pub fn process_shard<P: AuditSink>(shard: AlnShard, audit_sink: &mut P) -> (r: Result<
        (),
        &'static str,
    >)
        ensures
            ({
                let src = shard.header.source_device_class;
                let dst = shard.header.target_device_class;
                let before = old(audit_sink).recorded();
                let after = final(audit_sink).recorded();
                if on_allow_list(src, dst) {
                    &&& r is Ok
                    &&& after.len() == before.len() + 2
                    &&& appended(before, after.drop_last(), routing_entry(src, dst))
                    &&& appended(
                        after.drop_last(),
                        after,
                        AuditEntry::RoutingAllowed("enclave_accept"@),
                    )
                } else {
                    &&& r == Err::<(), &'static str>(
                        "disallowed routing path under zero-trust segmentation",
                    )
                    &&& appended(before, after, routing_entry(src, dst))
                }
            }),
    {
        match RoutingPolicy::evaluate(&shard, audit_sink) {
            RoutingDecision::Allowed => {
                let ghost routed = audit_sink.recorded();
                audit_sink.record(AuditEvent::routing_allowed("enclave_accept"));
                assert(audit_sink.recorded().drop_last() =~= routed);
                Ok(())
            },
            RoutingDecision::Denied(reason) => Err(reason),
        }
    }
}

} // verus!

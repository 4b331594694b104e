use vstd::prelude::*;

use crate::aln_shard::AlnShard;
use crate::governance_hooks::{AppealDecision, HitlTicket};

verus! {

/// An identity keypair, named by its DID. The key material stays with the
/// signature backend.
#[derive(Clone, Debug)]
pub struct DidKeyPair {
    pub did: String,
}

/// Post-quantum (ML-DSA) signature backend with DID resolution, provided by the
/// caller. Its spec functions name what each call did; an implementation
/// defines them.
pub trait MlDsaBackend {
    /// `sig` is a signature that this backend made over `msg` for `did`.
    spec fn signed(&self, did: Seq<char>, msg: Seq<u8>, sig: Seq<u8>) -> bool;

    /// `did` resolves to the public key `key`.
    spec fn resolves_to(&self, did: Seq<char>, key: Seq<u8>) -> bool;

    /// `sig` checks over `msg` against `key`.
    spec fn accepts(&self, key: Seq<u8>, msg: Seq<u8>, sig: Seq<u8>) -> bool;

    /// Signs `msg` with the private key held for `did`.
    fn sign(&self, did: &str, msg: &[u8]) -> (sig: Vec<u8>)
        ensures
            self.signed(did@, msg@, sig@),
    ;

    /// The public key of `did`, if its DID document resolves.
    fn resolve(&self, did: &str) -> (r: Option<Vec<u8>>)
        ensures
            r matches Some(key) ==> self.resolves_to(did@, key@),
    ;

    /// Checks `sig` over `msg` against `public_key`.
    fn verify(&self, public_key: &[u8], msg: &[u8], sig: &[u8]) -> (r: bool)
        ensures
            r == self.accepts(public_key@, msg@, sig@),
    ;
}

impl DidKeyPair {
    /// Signs `msg` with this identity's private key.
    pub fn sign_ml_dsa<B: MlDsaBackend>(&self, backend: &B, msg: &[u8]) -> (r: Vec<u8>)
        ensures
            backend.signed(self.did@, msg@, r@),
    {
        backend.sign(self.did.as_str(), msg)
    }
}

/// The verdict on `sig` over `msg`, given what resolving the signer's identity
/// returned: an identity that did not resolve fails; otherwise the backend checks
/// the signature against the resolved key.
pub fn verify_resolved<B: MlDsaBackend>(
    backend: &B,
    resolved: Option<Vec<u8>>,
    msg: &[u8],
    sig: &[u8],
) -> (r: bool)
    ensures
        resolved is None ==> !r,
        resolved matches Some(key) ==> r == backend.accepts(key@, msg@, sig@),
{
    match resolved {
        Some(public_key) => backend.verify(public_key.as_slice(), msg, sig),
        None => false,
    }
}

/// Resolves `did` to its public key and checks `sig` over `msg`. An identity
/// that does not resolve fails.
pub fn verify_ml_dsa<B: MlDsaBackend>(backend: &B, did: &str, msg: &[u8], sig: &[u8]) -> (r: bool)
    ensures
        r ==> exists|key: Seq<u8>|
            #[trigger] backend.resolves_to(did@, key) && backend.accepts(key, msg@, sig@),
{
    let resolved = backend.resolve(did);
    let r = verify_resolved(backend, resolved, msg, sig);
    proof {
        if r {
            let key = resolved->Some_0@;
            assert(backend.resolves_to(did@, key) && backend.accepts(key, msg@, sig@));
        }
    }
    r
}

/// Claims of a verified operator credential.
#[derive(Clone, Debug)]
pub struct OperatorCredential {
    pub did: String,
    pub roles: Vec<String>,
}

/// Decentralized web-node audit log for human-review events, provided by the caller.
pub trait DwnAudit {
    /// `confidence` is in millionths.
    fn append_hitl_event(&self, ticket: &HitlTicket, shard: &AlnShard, confidence: i64);

    fn append_appeal_event(
        &self,
        ticket: &HitlTicket,
        human_did: &str,
        decision: &AppealDecision,
        reason: &str,
    );
}

} // verus!

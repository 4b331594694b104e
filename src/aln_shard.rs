use vstd::prelude::*;

use crate::aln::AlnShard as RoutedShard;
use crate::encoding::{
    encode_record, lemma_record_bytes_injective, record_bytes, same_content, strings_fit,
};
use crate::web5_integration::{verify_ml_dsa, DidKeyPair, MlDsaBackend};

verus! {

/// A routed shard bound to the identity that signed its validated record.
#[derive(Debug)]
pub struct AlnShard {
    pub payload: RoutedShard,
    pub did: String,
    /// ML-DSA signature over the canonical bytes of the payload's record.
    pub signature: Vec<u8>,
}

/// The message that a signed shard's signature must cover.
pub open spec fn attested_message(shard: AlnShard) -> Seq<u8> {
    record_bytes(shard.payload.nanopolygon.record())
}

/// A shard whose record differs from the signed one in any field presents a
/// different message for verification than the one that was signed.
pub proof fn lemma_changed_record_changes_message(signed: AlnShard, presented: AlnShard)
    requires
        strings_fit(signed.payload.nanopolygon.record()),
        strings_fit(presented.payload.nanopolygon.record()),
        !same_content(signed.payload.nanopolygon.record(), presented.payload.nanopolygon.record()),
    ensures
        attested_message(signed) != attested_message(presented),
{
    if attested_message(signed) == attested_message(presented) {
        lemma_record_bytes_injective(
            signed.payload.nanopolygon.record(),
            presented.payload.nanopolygon.record(),
        );
    }
}

/// Signs the validated record of `payload` with `keypair` and binds the result
/// to the keypair's identity.
pub fn sign_shard<B: MlDsaBackend>(payload: RoutedShard, keypair: &DidKeyPair, backend: &B) -> (r:
    AlnShard)
    ensures
        r.payload == payload,
        r.did@ == keypair.did@,
        backend.signed(keypair.did@, record_bytes(payload.nanopolygon.record()), r.signature@),
        r.payload.nanopolygon.record().numeric_in_range(),
        r.payload.nanopolygon.record().governance_ok(),
{
    let did = keypair.did.clone();
    let bytes = encode_record(payload.nanopolygon.inner());
    let signature = keypair.sign_ml_dsa(backend, bytes.as_slice());
    AlnShard { payload, did, signature }
}

/// Re-derives the message from the embedded record and checks the signature
/// against the claimed identity. Any failure yields `false`.
pub fn verify_shard<B: MlDsaBackend>(shard: &AlnShard, backend: &B) -> (r: bool)
    ensures
        r ==> exists|key: Seq<u8>|
            #[trigger] backend.resolves_to(shard.did@, key) && backend.accepts(
                key,
                attested_message(*shard),
                shard.signature@,
            ),
        r ==> shard.payload.nanopolygon.record().numeric_in_range(),
        r ==> shard.payload.nanopolygon.record().governance_ok(),
{
    let bytes = encode_record(shard.payload.nanopolygon.inner());
    verify_ml_dsa(backend, shard.did.as_str(), bytes.as_slice(), shard.signature.as_slice())
}

} // verus!

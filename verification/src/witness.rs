//! Policy-binding generation: tie a fresh hybrid key pair to an external
//! policy commitment by signing the concatenation of the policy hash and
//! the attested commitment hash, and self-verify that binding before
//! handing the pair out.

use vstd::prelude::*;

use crate::encoding::push_all;
use crate::errors::CryptoError;
use crate::keys::{generated_hybrid_pair, honest_signature, key_pair_linked, material_sound, material_wf, PrivateKey, PublicKey};
use crate::verification::lemma_sign_then_verify_succeeds;

verus! {

/// Generate a keypair bound to a policy commitment.
///
/// `witness_commitment` is the commitment hash of the external attestation
/// of `policy_hash`, when the attestation collaborator is available.  With
/// it, the fresh key signs `policy_hash || commitment` and that binding
/// signature is verified against the returned public key before the pair is
/// released; the returned private key therefore has one accounted use.
///
/// Without it the call degrades to plain generation and the policy hash is
/// ignored, so the caller receives an unbound key with no error.  This
/// mirrors the collaborator-less behaviour of the system; callers that need
/// the binding must treat an absent attestation as a failure themselves.
pub fn generate_witness_bound_key(
    policy_hash: &[u8; 32],
    witness_commitment: Option<&[u8; 32]>,
) -> (r: Result<(PrivateKey, PublicKey), CryptoError>)
    ensures
        r matches Ok(pair) ==> {
            &&& key_pair_linked(pair.0, pair.1)
            &&& material_wf(pair.0.inner)
            &&& material_sound(pair.0.inner)
        },
        witness_commitment is None ==> (r matches Ok(pair) && generated_hybrid_pair(
            pair.0,
            pair.1,
        )),
        witness_commitment is Some ==> (r matches Ok(pair) && pair.0.usage_count == 1),
{
    match witness_commitment {
        Option::None => PrivateKey::generate(),
        Option::Some(commitment) => {
            let (mut private_key, public_key) = match PrivateKey::generate() {
                Ok(pair) => pair,
                Err(fault) => {
                    return Err(fault);
                },
            };

            let mut binding_data: Vec<u8> = Vec::new();
            push_all(&mut binding_data, policy_hash.as_slice());
            push_all(&mut binding_data, commitment.as_slice());

            let binding_signature = match private_key.sign(binding_data.as_slice()) {
                Ok(signature) => signature,
                Err(fault) => {
                    return Err(fault);
                },
            };
            proof {
                lemma_sign_then_verify_succeeds(
                    private_key,
                    public_key,
                    binding_data@,
                    binding_signature,
                );
            }
            match public_key.verify(binding_data.as_slice(), &binding_signature) {
                Ok(_) => Ok((private_key, public_key)),
                Err(fault) => Err(fault),
            }
        },
    }
}

} // verus!

//! Hybrid signature verification: a chain of hard gates, each with its own
//! error, ending in the two independent cryptographic checks.  Side-effect
//! free.

use vstd::prelude::*;

use vstd::slice::slice_subrange;

use crate::algorithm::AlgorithmVersion;
use crate::errors::{CryptoError, KeyFault, OperationFault, VerifyFault};
use crate::keys::{
    honest_signature, hybrid_public_bytes_of, hybrid_signature_bytes_of, key_pair_linked,
    material_sound, material_wf, KeyMaterialInner, PrivateKey, PublicKey, Signature,
};
use crate::primitives::{
    dilithium_accepts, dilithium_signature_of, dilithium_verify, ed25519_accepts,
    ed25519_decode_check, ed25519_public_decodes, ed25519_public_of, ed25519_signature_of,
    ed25519_verify, DILITHIUM_PUBLIC_BYTES, DILITHIUM_SIGNATURE_BYTES, ED25519_PUBLIC_BYTES,
    ED25519_SIGNATURE_BYTES,
};

verus! {

/// The post-quantum public-key segment of stored public-key bytes.
pub open spec fn post_quantum_key_segment(bytes: Seq<u8>) -> Seq<u8> {
    bytes.subrange(0, DILITHIUM_PUBLIC_BYTES as int)
}

/// The classical public-key segment of stored public-key bytes.
pub open spec fn classical_key_segment(bytes: Seq<u8>) -> Seq<u8> {
    bytes.subrange(
        DILITHIUM_PUBLIC_BYTES as int,
        DILITHIUM_PUBLIC_BYTES as int + ED25519_PUBLIC_BYTES as int,
    )
}

/// The post-quantum signature segment of stored signature bytes.
pub open spec fn post_quantum_signature_segment(bytes: Seq<u8>) -> Seq<u8> {
    bytes.subrange(0, DILITHIUM_SIGNATURE_BYTES as int)
}

/// The classical signature segment of stored signature bytes.
pub open spec fn classical_signature_segment(bytes: Seq<u8>) -> Seq<u8> {
    bytes.subrange(
        DILITHIUM_SIGNATURE_BYTES as int,
        DILITHIUM_SIGNATURE_BYTES as int + ED25519_SIGNATURE_BYTES as int,
    )
}

/// The complete outcome of hybrid verification: which gate fails first, or
/// acceptance when the tag is live, both byte buffers carry their two
/// fixed-width segments, the classical key decodes, and both cryptographic
/// checks pass.
pub open spec fn verify_outcome(pk: PublicKey, message: Seq<u8>, sig: Signature) -> Result<
    (),
    CryptoError,
> {
    match pk.algorithm {
        AlgorithmVersion::Dilithium3V1 => Err(
            CryptoError::InvalidOperation(OperationFault::LegacyDilithiumVerification),
        ),
        AlgorithmVersion::Ed25519V1 => Err(
            CryptoError::InvalidOperation(OperationFault::LegacyEd25519Verification),
        ),
        AlgorithmVersion::MandatoryHybrid => if pk.bytes@.len() < DILITHIUM_PUBLIC_BYTES
            + ED25519_PUBLIC_BYTES {
            Err(CryptoError::InvalidKey(KeyFault::HybridKeyTooShort))
        } else if !ed25519_public_decodes(classical_key_segment(pk.bytes@)) {
            Err(CryptoError::InvalidKey(KeyFault::ClassicalKeyDecode))
        } else if sig.bytes@.len() < DILITHIUM_SIGNATURE_BYTES + ED25519_SIGNATURE_BYTES {
            Err(CryptoError::SignatureVerification(VerifyFault::HybridSignatureTooShort))
        } else if !dilithium_accepts(
            post_quantum_key_segment(pk.bytes@),
            message,
            post_quantum_signature_segment(sig.bytes@),
        ) {
            Err(CryptoError::SignatureVerification(VerifyFault::PostQuantumRejected))
        } else if !ed25519_accepts(
            classical_key_segment(pk.bytes@),
            message,
            classical_signature_segment(sig.bytes@),
        ) {
            Err(CryptoError::SignatureVerification(VerifyFault::ClassicalRejected))
        } else {
            Ok(())
        },
    }
}

impl PublicKey {
    /// Verify a hybrid digital signature.  Gates, in order: live algorithm
    /// tag; public-key length; classical key decode; signature length; the
    /// post-quantum check; the classical check.  Verification stops at the
    /// first unmet gate and each gate has a distinct error, so audits can
    /// tell which half of a signature failed.
    pub fn verify(&self, message: &[u8], signature: &Signature) -> (r: Result<(), CryptoError>)
        ensures
            r == verify_outcome(*self, message@, *signature),
    {
        match self.algorithm {
            AlgorithmVersion::Dilithium3V1 => Err(
                CryptoError::InvalidOperation(OperationFault::LegacyDilithiumVerification),
            ),
            AlgorithmVersion::Ed25519V1 => Err(
                CryptoError::InvalidOperation(OperationFault::LegacyEd25519Verification),
            ),
            AlgorithmVersion::MandatoryHybrid => {
                if self.bytes.len() < DILITHIUM_PUBLIC_BYTES + ED25519_PUBLIC_BYTES {
                    return Err(CryptoError::InvalidKey(KeyFault::HybridKeyTooShort));
                }
                let key_bytes = self.bytes.as_slice();
                let post_quantum_key = slice_subrange(key_bytes, 0, DILITHIUM_PUBLIC_BYTES);
                let classical_key = slice_subrange(
                    key_bytes,
                    DILITHIUM_PUBLIC_BYTES,
                    DILITHIUM_PUBLIC_BYTES + ED25519_PUBLIC_BYTES,
                );
                if !ed25519_decode_check(classical_key) {
                    return Err(CryptoError::InvalidKey(KeyFault::ClassicalKeyDecode));
                }
                if signature.bytes.len() < DILITHIUM_SIGNATURE_BYTES + ED25519_SIGNATURE_BYTES {
                    return Err(
                        CryptoError::SignatureVerification(VerifyFault::HybridSignatureTooShort),
                    );
                }
                let signature_bytes = signature.bytes.as_slice();
                let post_quantum_signature = slice_subrange(
                    signature_bytes,
                    0,
                    DILITHIUM_SIGNATURE_BYTES,
                );
                if !dilithium_verify(post_quantum_key, message, post_quantum_signature) {
                    return Err(
                        CryptoError::SignatureVerification(VerifyFault::PostQuantumRejected),
                    );
                }
                let classical_signature = slice_subrange(
                    signature_bytes,
                    DILITHIUM_SIGNATURE_BYTES,
                    DILITHIUM_SIGNATURE_BYTES + ED25519_SIGNATURE_BYTES,
                );
                if !ed25519_verify(classical_key, message, classical_signature) {
                    return Err(CryptoError::SignatureVerification(VerifyFault::ClassicalRejected));
                }
                Ok(())
            },
        }
    }
}

/// Signing and verification agree: a signature honestly produced by a
/// generated hybrid key over a message verifies under the matching public
/// key, for every message the key may sign.
pub proof fn lemma_sign_then_verify_succeeds(
    sk: PrivateKey,
    pk: PublicKey,
    message: Seq<u8>,
    sig: Signature,
)
    requires
        key_pair_linked(sk, pk),
        material_wf(sk.inner),
        material_sound(sk.inner),
        honest_signature(sk.inner, message, sig),
    ensures
        verify_outcome(pk, message, sig) == Ok::<(), CryptoError>(()),
{
    match sk.inner {
        KeyMaterialInner::MandatoryHybrid { dilithium, ed25519 } => {
            let classical_public = ed25519_public_of(ed25519@);
            assert(pk.bytes@ == dilithium.public@ + classical_public);
            assert(post_quantum_key_segment(pk.bytes@) =~= dilithium.public@);
            assert(classical_key_segment(pk.bytes@) =~= classical_public);
            let post_quantum_sig = dilithium_signature_of(dilithium.secret@, message);
            let classical_sig = ed25519_signature_of(ed25519@, message);
            assert(sig.bytes@ == post_quantum_sig + classical_sig);
            assert(post_quantum_signature_segment(sig.bytes@) =~= post_quantum_sig);
            assert(classical_signature_segment(sig.bytes@) =~= classical_sig);
        },
        _ => {
            assert(false);
        },
    }
}

/// Whatever message is checked against an honestly produced signature of a
/// generated hybrid key, verification reaches the two cryptographic checks:
/// it either accepts or reports a cryptographic rejection of one half,
/// never a length or decode error.  In particular a message altered after
/// signing fails as a cryptographic rejection.
pub proof fn lemma_verify_reaches_cryptographic_checks(
    sk: PrivateKey,
    pk: PublicKey,
    signed_message: Seq<u8>,
    checked_message: Seq<u8>,
    sig: Signature,
)
    requires
        key_pair_linked(sk, pk),
        material_wf(sk.inner),
        material_sound(sk.inner),
        honest_signature(sk.inner, signed_message, sig),
    ensures
        verify_outcome(pk, checked_message, sig) == Ok::<(), CryptoError>(()) || verify_outcome(
            pk,
            checked_message,
            sig,
        ) == Err::<(), CryptoError>(
            CryptoError::SignatureVerification(VerifyFault::PostQuantumRejected),
        ) || verify_outcome(pk, checked_message, sig) == Err::<(), CryptoError>(
            CryptoError::SignatureVerification(VerifyFault::ClassicalRejected),
        ),
{
    match sk.inner {
        KeyMaterialInner::MandatoryHybrid { dilithium, ed25519 } => {
            let classical_public = ed25519_public_of(ed25519@);
            assert(pk.bytes@ == dilithium.public@ + classical_public);
            assert(classical_key_segment(pk.bytes@) =~= classical_public);
        },
        _ => {
            assert(false);
        },
    }
}

/// Verification under a legacy algorithm tag fails with the tag's policy
/// error, whatever the message, key bytes and signature are: the disabled
/// schemes never reach a cryptographic computation.
pub proof fn lemma_legacy_verification_rejected(pk: PublicKey, message: Seq<u8>, sig: Signature)
    requires
        !(pk.algorithm is MandatoryHybrid),
    ensures
        pk.algorithm is Dilithium3V1 ==> verify_outcome(pk, message, sig) == Err::<
            (),
            CryptoError,
        >(CryptoError::InvalidOperation(OperationFault::LegacyDilithiumVerification)),
        pk.algorithm is Ed25519V1 ==> verify_outcome(pk, message, sig) == Err::<(), CryptoError>(
            CryptoError::InvalidOperation(OperationFault::LegacyEd25519Verification),
        ),
{
}

} // verus!

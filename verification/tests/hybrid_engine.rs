//! End-to-end tests of the hybrid generate/sign/verify protocol, including
//! cross-checks of each signature half against the underlying crates.

use af_pqc::keys::{DilithiumKeyMaterial, KeyMaterialInner, PrivateKey, PublicKey, Signature};
use af_pqc::primitives::{
    DILITHIUM_PUBLIC_BYTES, DILITHIUM_SECRET_BYTES, DILITHIUM_SIGNATURE_BYTES, ED25519_PUBLIC_BYTES,
    ED25519_SIGNATURE_BYTES,
};
use af_pqc::{AlgorithmVersion, CryptoError, KeyFault, OperationFault, VerifyFault};
use ed25519_dalek::Verifier;

fn fresh_pair() -> (PrivateKey, PublicKey) {
    PrivateKey::generate().expect("hybrid generation must succeed")
}

#[test]
fn generate_sign_verify_succeeds() {
    let (mut private_key, public_key) = fresh_pair();
    let message = b"the quick brown fox jumps over the lazy dog";
    let signature = private_key.sign(message).expect("signing must succeed");
    assert!(public_key.verify(message, &signature).is_ok());
    assert_eq!(signature.algorithm, AlgorithmVersion::MandatoryHybrid);
    assert_eq!(signature.signer_key_id, private_key.key_id);
    assert_eq!(
        signature.bytes.len(),
        DILITHIUM_SIGNATURE_BYTES + ED25519_SIGNATURE_BYTES
    );
}

#[test]
fn public_key_layout_is_fixed_concatenation() {
    let (private_key, public_key) = fresh_pair();
    assert_eq!(
        public_key.bytes.len(),
        DILITHIUM_PUBLIC_BYTES + ED25519_PUBLIC_BYTES
    );
    let derived = private_key.public_key().expect("hybrid material has a public key");
    assert_eq!(derived.bytes, public_key.bytes);
    assert_eq!(derived.algorithm, public_key.algorithm);
    assert_eq!(derived.created_at, public_key.created_at);
    assert_eq!(derived.operation_id, public_key.operation_id);
}

#[test]
fn byte_widths_match_the_primitives() {
    assert_eq!(
        DILITHIUM_PUBLIC_BYTES,
        crystals_dilithium::dilithium3::PUBLICKEYBYTES
    );
    assert_eq!(
        DILITHIUM_SECRET_BYTES,
        crystals_dilithium::dilithium3::SECRETKEYBYTES
    );
    assert_eq!(
        DILITHIUM_SIGNATURE_BYTES,
        crystals_dilithium::dilithium3::SIGNBYTES
    );
}

#[test]
fn signature_halves_verify_under_the_primitives() {
    let (mut private_key, public_key) = fresh_pair();
    let message = b"cross-checked against the primitive crates";
    let signature = private_key.sign(message).expect("signing must succeed");

    let pq_public =
        crystals_dilithium::dilithium3::PublicKey::from_bytes(&public_key.bytes[..DILITHIUM_PUBLIC_BYTES])
            .expect("post-quantum public segment has the fixed width");
    assert!(pq_public.verify(message, &signature.bytes[..DILITHIUM_SIGNATURE_BYTES]));

    let classical_bytes: [u8; 32] = public_key.bytes[DILITHIUM_PUBLIC_BYTES..]
        .try_into()
        .expect("classical public segment is 32 bytes");
    let classical_public = ed25519_dalek::VerifyingKey::from_bytes(&classical_bytes)
        .expect("classical public segment decodes");
    let classical_signature: [u8; 64] = signature.bytes[DILITHIUM_SIGNATURE_BYTES..]
        .try_into()
        .expect("classical signature segment is 64 bytes");
    assert!(classical_public
        .verify(
            message,
            &ed25519_dalek::Signature::from_bytes(&classical_signature)
        )
        .is_ok());
}

#[test]
fn mutated_message_fails_with_cryptographic_error() {
    let (mut private_key, public_key) = fresh_pair();
    let message = b"original content".to_vec();
    let signature = private_key.sign(&message).expect("signing must succeed");
    let mut mutated = message.clone();
    mutated[3] ^= 0x01;
    match public_key.verify(&mutated, &signature) {
        Err(CryptoError::SignatureVerification(fault)) => {
            assert!(
                fault == VerifyFault::PostQuantumRejected || fault == VerifyFault::ClassicalRejected
            );
        }
        other => panic!("expected a cryptographic rejection, got {:?}", other),
    }
}

#[test]
fn corrupted_post_quantum_segment_is_reported_distinctly() {
    let (mut private_key, public_key) = fresh_pair();
    let message = b"audit which half failed";
    let mut signature = private_key.sign(message).expect("signing must succeed");
    signature.bytes[10] ^= 0xff;
    assert_eq!(
        public_key.verify(message, &signature),
        Err(CryptoError::SignatureVerification(VerifyFault::PostQuantumRejected))
    );
}

#[test]
fn corrupted_classical_segment_is_reported_distinctly() {
    let (mut private_key, public_key) = fresh_pair();
    let message = b"audit which half failed";
    let mut signature = private_key.sign(message).expect("signing must succeed");
    let tail = DILITHIUM_SIGNATURE_BYTES + 5;
    signature.bytes[tail] ^= 0xff;
    assert_eq!(
        public_key.verify(message, &signature),
        Err(CryptoError::SignatureVerification(VerifyFault::ClassicalRejected))
    );
}

#[test]
fn legacy_generation_is_rejected_by_policy() {
    for tag in [AlgorithmVersion::Dilithium3V1, AlgorithmVersion::Ed25519V1] {
        match PrivateKey::generate_with_algorithm(tag) {
            Err(CryptoError::UnsupportedAlgorithm(reported)) => assert_eq!(reported, tag),
            other => panic!("expected a policy rejection, got {:?}", other.map(|_| ())),
        }
    }
}

fn legacy_dilithium_key() -> PrivateKey {
    PrivateKey {
        algorithm: AlgorithmVersion::Dilithium3V1,
        inner: KeyMaterialInner::Dilithium(DilithiumKeyMaterial {
            public: vec![0; DILITHIUM_PUBLIC_BYTES],
            secret: vec![0; DILITHIUM_SECRET_BYTES],
        }),
        created_at: 0,
        operation_id: 0,
        usage_count: 0,
        key_id: String::from("legacy"),
    }
}

#[test]
fn legacy_signing_is_rejected_by_policy() {
    let mut dilithium_key = legacy_dilithium_key();
    assert_eq!(
        dilithium_key.sign(b"message").map(|_| ()),
        Err(CryptoError::InvalidOperation(OperationFault::LegacyDilithiumSigning))
    );

    let mut classical_key = PrivateKey {
        algorithm: AlgorithmVersion::Ed25519V1,
        inner: KeyMaterialInner::Ed25519([0u8; 32]),
        created_at: 0,
        operation_id: 0,
        usage_count: 0,
        key_id: String::from("legacy"),
    };
    assert_eq!(
        classical_key.sign(b"message").map(|_| ()),
        Err(CryptoError::InvalidOperation(OperationFault::LegacyEd25519Signing))
    );
}

#[test]
fn legacy_public_key_extraction_is_rejected() {
    let dilithium_key = legacy_dilithium_key();
    assert_eq!(
        dilithium_key.public_key().map(|_| ()),
        Err(CryptoError::InvalidKey(KeyFault::LegacyDilithiumMaterial))
    );
}

#[test]
fn legacy_verification_is_rejected_by_policy() {
    let (mut private_key, public_key) = fresh_pair();
    let message = b"message";
    let signature = private_key.sign(message).expect("signing must succeed");
    let legacy_key = PublicKey {
        algorithm: AlgorithmVersion::Dilithium3V1,
        bytes: public_key.bytes.clone(),
        created_at: public_key.created_at,
        operation_id: public_key.operation_id,
    };
    assert_eq!(
        legacy_key.verify(message, &signature),
        Err(CryptoError::InvalidOperation(OperationFault::LegacyDilithiumVerification))
    );
    let classical_legacy = PublicKey {
        algorithm: AlgorithmVersion::Ed25519V1,
        bytes: public_key.bytes.clone(),
        created_at: public_key.created_at,
        operation_id: public_key.operation_id,
    };
    assert_eq!(
        classical_legacy.verify(message, &signature),
        Err(CryptoError::InvalidOperation(OperationFault::LegacyEd25519Verification))
    );
}

#[test]
fn empty_message_is_rejected_without_accounting() {
    let (mut private_key, _public_key) = fresh_pair();
    assert_eq!(
        private_key.sign(b"").map(|_| ()),
        Err(CryptoError::InvalidOperation(OperationFault::EmptyMessage))
    );
    assert_eq!(private_key.usage_count, 0);
}

#[test]
fn oversized_message_is_rejected_without_accounting() {
    let (mut private_key, _public_key) = fresh_pair();
    let oversized = vec![0u8; 1_048_577];
    assert_eq!(
        private_key.sign(&oversized).map(|_| ()),
        Err(CryptoError::InvalidOperation(OperationFault::MessageTooLarge))
    );
    assert_eq!(private_key.usage_count, 0);

    let largest = vec![0u8; 1_048_576];
    assert!(private_key.sign(&largest).is_ok());
    assert_eq!(private_key.usage_count, 1);
}

#[test]
fn usage_counter_counts_every_accounted_attempt() {
    let (mut private_key, _public_key) = fresh_pair();
    assert_eq!(private_key.usage_count, 0);
    for expected in 1..=3u64 {
        assert!(private_key.sign(b"accounted").is_ok());
        assert_eq!(private_key.usage_count, expected);
    }
}

#[test]
fn millionth_attempt_is_rejected_and_recorded() {
    let (mut private_key, _public_key) = fresh_pair();
    private_key.usage_count = 999_998;
    assert!(private_key.sign(b"still allowed").is_ok());
    assert_eq!(private_key.usage_count, 999_999);
    assert_eq!(
        private_key.sign(b"one too many").map(|_| ()),
        Err(CryptoError::KeyUsageExceeded { count: 1_000_000, max: 1_000_000 })
    );
    assert_eq!(private_key.usage_count, 1_000_000);
    assert_eq!(
        private_key.sign(b"and still counted").map(|_| ()),
        Err(CryptoError::KeyUsageExceeded { count: 1_000_001, max: 1_000_000 })
    );
    assert_eq!(private_key.usage_count, 1_000_001);
}

#[test]
fn truncated_public_key_fails_length_validation() {
    let (mut private_key, public_key) = fresh_pair();
    let message = b"message";
    let signature = private_key.sign(message).expect("signing must succeed");
    let mut truncated = public_key.bytes.clone();
    truncated.truncate(DILITHIUM_PUBLIC_BYTES + 16);
    let short_key = PublicKey {
        algorithm: AlgorithmVersion::MandatoryHybrid,
        bytes: truncated,
        created_at: public_key.created_at,
        operation_id: public_key.operation_id,
    };
    assert_eq!(
        short_key.verify(message, &signature),
        Err(CryptoError::InvalidKey(KeyFault::HybridKeyTooShort))
    );
}

#[test]
fn truncated_signature_fails_length_validation() {
    let (mut private_key, public_key) = fresh_pair();
    let message = b"message";
    let signature = private_key.sign(message).expect("signing must succeed");
    let mut short_bytes = signature.bytes.clone();
    short_bytes.truncate(DILITHIUM_SIGNATURE_BYTES + 63);
    let short_signature = Signature {
        algorithm: signature.algorithm,
        bytes: short_bytes,
        created_at: signature.created_at,
        operation_id: signature.operation_id,
        signer_key_id: signature.signer_key_id.clone(),
    };
    assert_eq!(
        public_key.verify(message, &short_signature),
        Err(CryptoError::SignatureVerification(VerifyFault::HybridSignatureTooShort))
    );
}

#[test]
fn undecodable_classical_segment_is_a_decode_error() {
    let (mut private_key, public_key) = fresh_pair();
    let message = b"message";
    let signature = private_key.sign(message).expect("signing must succeed");

    let mut invalid_segment: Option<[u8; 32]> = None;
    for fill in 0..=255u8 {
        let candidate = [fill; 32];
        if ed25519_dalek::VerifyingKey::from_bytes(&candidate).is_err() {
            invalid_segment = Some(candidate);
            break;
        }
    }
    let invalid_segment = invalid_segment.expect("some uniform pattern fails to decode");

    let mut bytes = public_key.bytes.clone();
    bytes[DILITHIUM_PUBLIC_BYTES..].copy_from_slice(&invalid_segment);
    let broken_key = PublicKey {
        algorithm: AlgorithmVersion::MandatoryHybrid,
        bytes,
        created_at: public_key.created_at,
        operation_id: public_key.operation_id,
    };
    assert_eq!(
        broken_key.verify(message, &signature),
        Err(CryptoError::InvalidKey(KeyFault::ClassicalKeyDecode))
    );
}

#[test]
fn mandatory_key_id_names_the_operation() {
    let (private_key, public_key) = fresh_pair();
    assert_eq!(
        private_key.key_id,
        format!("mandatory-hybrid-{}", private_key.operation_id)
    );
    assert_eq!(private_key.operation_id, public_key.operation_id);
    assert_eq!(private_key.created_at, public_key.created_at);
}

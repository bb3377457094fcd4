//! Tests of deterministic seed derivation and the encrypted secret cache,
//! including cross-checks of the derivations against the hash and cipher
//! crates.

use aes_gcm::aead::Aead;
use aes_gcm::KeyInit;
use sha2::Digest;

use af_pqc::cache::CACHE_NONCE_BYTES;
use af_pqc::keys::DilithiumKeyMaterial;
use af_pqc::primitives::{DILITHIUM_PUBLIC_BYTES, DILITHIUM_SECRET_BYTES};
use af_pqc::{
    decrypt_keypair_from_cache, derive_encryption_key, encrypt_keypair_for_cache,
    generate_key_from_seed, generate_secure_filename, validate_encrypted_file_path, CacheFault,
    CryptoError, VerifyFault,
};

#[test]
fn seed_derivation_is_deterministic_through_the_cache() {
    let seed = [7u8; 32];
    let first = generate_key_from_seed(&seed, None).expect("first derivation succeeds");
    let blob = first.cache_update.clone().expect("a miss populates the cache");

    let second =
        generate_key_from_seed(&seed, Some(blob.clone())).expect("second derivation succeeds");
    assert!(second.cache_update.is_none(), "a hit leaves the cache alone");
    assert_eq!(second.public_key.bytes, first.public_key.bytes);
    assert_eq!(second.public_key.operation_id, first.public_key.operation_id);
    assert_eq!(second.private_key.key_id, first.private_key.key_id);

    let third = generate_key_from_seed(&seed, Some(blob)).expect("third derivation succeeds");
    assert_eq!(third.public_key.bytes, first.public_key.bytes);
}

#[test]
fn corrupted_cache_blob_falls_back_to_fresh_material() {
    let seed = [9u8; 32];
    let first = generate_key_from_seed(&seed, None).expect("first derivation succeeds");
    let mut blob = first.cache_update.expect("a miss populates the cache");
    let last = blob.len() - 1;
    blob[last] ^= 0xff;
    let second =
        generate_key_from_seed(&seed, Some(blob)).expect("a stale cache never fails derivation");
    let replacement = second.cache_update.expect("a miss repopulates the cache");
    let third = generate_key_from_seed(&seed, Some(replacement)).expect("replacement blob opens");
    assert_eq!(third.public_key.bytes, second.public_key.bytes);
}

#[test]
fn zero_seed_signs_hello_and_rejects_hellp() {
    let seed = [0u8; 32];
    let derivation = generate_key_from_seed(&seed, None).expect("derivation succeeds");
    let mut private_key = derivation.private_key;
    let public_key = derivation.public_key;
    let signature = private_key.sign(b"hello").expect("signing succeeds");
    assert!(public_key.verify(b"hello", &signature).is_ok());
    match public_key.verify(b"hellp", &signature) {
        Err(CryptoError::SignatureVerification(fault)) => {
            assert!(
                fault == VerifyFault::PostQuantumRejected || fault == VerifyFault::ClassicalRejected
            );
        }
        other => panic!("expected a cryptographic rejection, got {:?}", other),
    }
}

#[test]
fn operation_id_reads_the_seed_big_endian() {
    let mut seed = [0u8; 32];
    seed[6] = 0x01;
    seed[7] = 0x02;
    let derivation = generate_key_from_seed(&seed, None).expect("derivation succeeds");
    assert_eq!(derivation.private_key.operation_id, 0x0102);
    assert_eq!(derivation.public_key.operation_id, 0x0102);

    let mut high = [0u8; 32];
    high[0] = 0xff;
    let derivation = generate_key_from_seed(&high, None).expect("derivation succeeds");
    assert_eq!(derivation.private_key.operation_id, 0xff00_0000_0000_0000);
}

#[test]
fn deterministic_key_id_names_the_seed_prefix() {
    let mut seed = [0u8; 32];
    for (i, byte) in seed.iter_mut().enumerate() {
        *byte = i as u8;
    }
    let derivation = generate_key_from_seed(&seed, None).expect("derivation succeeds");
    assert_eq!(
        derivation.private_key.key_id,
        format!("deterministic-hybrid-{}", hex::encode(&seed[..8]))
    );
}

#[test]
fn classical_half_is_a_pure_function_of_the_seed() {
    let seed = [42u8; 32];
    let first = generate_key_from_seed(&seed, None).expect("derivation succeeds");
    // A derivation with no usable cache regenerates the post-quantum half,
    // but the classical tail of the public key must not change.
    let second = generate_key_from_seed(&seed, None).expect("derivation succeeds");
    assert_eq!(
        first.public_key.bytes[DILITHIUM_PUBLIC_BYTES..],
        second.public_key.bytes[DILITHIUM_PUBLIC_BYTES..]
    );
}

#[test]
fn cache_round_trip_returns_identical_material() {
    let seed = [3u8; 32];
    let material = DilithiumKeyMaterial {
        public: vec![1u8; DILITHIUM_PUBLIC_BYTES],
        secret: vec![2u8; DILITHIUM_SECRET_BYTES],
    };
    let blob = encrypt_keypair_for_cache(&seed, &material).expect("sealing succeeds");
    assert_eq!(
        blob.len(),
        CACHE_NONCE_BYTES + DILITHIUM_PUBLIC_BYTES + DILITHIUM_SECRET_BYTES + 16
    );
    let reopened = decrypt_keypair_from_cache(&seed, &blob).expect("opening succeeds");
    assert_eq!(reopened.public, material.public);
    assert_eq!(reopened.secret, material.secret);
}

#[test]
fn cache_blob_never_opens_under_another_seed() {
    let seed = [3u8; 32];
    let other_seed = [4u8; 32];
    let material = DilithiumKeyMaterial {
        public: vec![1u8; DILITHIUM_PUBLIC_BYTES],
        secret: vec![2u8; DILITHIUM_SECRET_BYTES],
    };
    let blob = encrypt_keypair_for_cache(&seed, &material).expect("sealing succeeds");
    assert_eq!(
        decrypt_keypair_from_cache(&other_seed, &blob).map(|_| ()),
        Err(CryptoError::CacheFailure(CacheFault::DecryptionFailed))
    );
}

#[test]
fn tampered_cache_blob_is_a_decryption_failure() {
    let seed = [5u8; 32];
    let material = DilithiumKeyMaterial {
        public: vec![1u8; DILITHIUM_PUBLIC_BYTES],
        secret: vec![2u8; DILITHIUM_SECRET_BYTES],
    };
    let mut blob = encrypt_keypair_for_cache(&seed, &material).expect("sealing succeeds");
    blob[CACHE_NONCE_BYTES + 3] ^= 0x01;
    assert_eq!(
        decrypt_keypair_from_cache(&seed, &blob).map(|_| ()),
        Err(CryptoError::CacheFailure(CacheFault::DecryptionFailed))
    );
}

#[test]
fn short_cache_file_is_rejected_before_decryption() {
    let seed = [5u8; 32];
    let blob = vec![0u8; CACHE_NONCE_BYTES - 1];
    assert_eq!(
        decrypt_keypair_from_cache(&seed, &blob).map(|_| ()),
        Err(CryptoError::CacheFailure(CacheFault::FileTooShort))
    );
}

#[test]
fn wrong_payload_width_is_a_format_error() {
    let seed = [6u8; 32];
    let key_bytes = derive_encryption_key(&seed);
    let key: [u8; 32] = key_bytes.as_slice().try_into().expect("derived key is 32 bytes");
    let cipher = aes_gcm::Aes256Gcm::new(&aes_gcm::Key::<aes_gcm::Aes256Gcm>::from(key));
    let nonce = [0u8; 12];
    let ciphertext = cipher
        .encrypt(&aes_gcm::Nonce::from(nonce), &b"seven b"[..])
        .expect("encryption succeeds");
    let mut blob = nonce.to_vec();
    blob.extend_from_slice(&ciphertext);
    assert_eq!(
        decrypt_keypair_from_cache(&seed, &blob).map(|_| ()),
        Err(CryptoError::CacheFailure(CacheFault::PayloadLengthMismatch))
    );
}

#[test]
fn encryption_key_is_the_labelled_hash_of_the_seed() {
    let seed = [11u8; 32];
    let mut hasher = sha2::Sha256::new();
    hasher.update(b"AF_ENCRYPTION_KEY_V1");
    hasher.update(seed);
    hasher.update(b"DILITHIUM_STORAGE");
    let expected: [u8; 32] = hasher.finalize().into();
    assert_eq!(derive_encryption_key(&seed), expected.to_vec());
}

#[test]
fn filename_is_the_labelled_hash_of_the_seed() {
    let seed = [12u8; 32];
    let mut hasher = sha2::Sha256::new();
    hasher.update(b"AF_FILENAME_V1");
    hasher.update(seed);
    let digest = hasher.finalize();
    let expected = format!(".af_dilithium_{}", hex::encode(&digest[..16]));
    assert_eq!(generate_secure_filename(&seed), expected);

    let validated = validate_encrypted_file_path(&seed).expect("derived names are single segments");
    assert_eq!(validated, expected);
    assert!(!validated.contains('/'));
}

#[test]
fn distinct_seeds_use_distinct_files_and_keys() {
    let seed_a = [1u8; 32];
    let seed_b = [2u8; 32];
    assert_ne!(generate_secure_filename(&seed_a), generate_secure_filename(&seed_b));
    assert_ne!(derive_encryption_key(&seed_a), derive_encryption_key(&seed_b));
    // The file name hash and the key hash use distinct labels: the hex of
    // the key must not appear in the file name for the same seed.
    let name = generate_secure_filename(&seed_a);
    let key_hex = hex::encode(derive_encryption_key(&seed_a));
    assert!(!key_hex.starts_with(name.trim_start_matches(".af_dilithium_")));
}

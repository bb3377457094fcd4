//! Tests of the small codecs, the address derivation, the policy-binding
//! path and the entropy helper.

use sha2::Digest;

use af_pqc::address::{derive_address, ADDRESS_BYTES};
use af_pqc::encoding::{push_all, push_decimal_bytes, push_hex_bytes};
use af_pqc::{generate_witness_bound_key, secure_random_bytes, AlgorithmVersion};

#[test]
fn hex_encoder_matches_the_reference_encoding() {
    let data: Vec<u8> = vec![0x00, 0x01, 0x0f, 0x10, 0xab, 0xcd, 0xef, 0xff];
    let mut out: Vec<u8> = Vec::new();
    push_hex_bytes(&data, &mut out);
    assert_eq!(String::from_utf8(out).unwrap(), hex::encode(&data));
}

#[test]
fn decimal_encoder_matches_the_reference_rendering() {
    for n in [0u64, 7, 10, 99, 100, 1_000_000, u64::MAX] {
        let mut out: Vec<u8> = Vec::new();
        push_decimal_bytes(n, &mut out);
        assert_eq!(String::from_utf8(out).unwrap(), format!("{}", n));
    }
}

#[test]
fn push_all_appends_in_order() {
    let mut out: Vec<u8> = vec![1, 2];
    push_all(&mut out, &[3, 4, 5]);
    assert_eq!(out, vec![1, 2, 3, 4, 5]);
}

#[test]
fn address_is_the_truncated_metadata_digest() {
    let derivation =
        af_pqc::generate_key_from_seed(&[21u8; 32], None).expect("derivation succeeds");
    let public_key = derivation.public_key;
    let address = derive_address(&public_key);
    assert_eq!(address.len(), ADDRESS_BYTES);

    let mut hasher = sha2::Sha256::new();
    hasher.update(&public_key.bytes);
    hasher.update(public_key.created_at.to_le_bytes());
    hasher.update(public_key.operation_id.to_le_bytes());
    let digest = hasher.finalize();
    assert_eq!(address, digest[..ADDRESS_BYTES].to_vec());
}

#[test]
fn witness_bound_key_is_self_verified() {
    let policy_hash = [0x5au8; 32];
    let commitment = [0xa5u8; 32];
    let (private_key, public_key) =
        generate_witness_bound_key(&policy_hash, Some(&commitment)).expect("binding succeeds");
    assert_eq!(private_key.usage_count, 1, "the binding signature is an accounted use");
    assert_eq!(public_key.algorithm, AlgorithmVersion::MandatoryHybrid);

    // The binding is an ordinary signature over `policy_hash || commitment`:
    // reproduce it and check it against the returned public key.
    let mut binding_data = policy_hash.to_vec();
    binding_data.extend_from_slice(&commitment);
    let mut signer = private_key;
    let signature = signer.sign(&binding_data).expect("signing succeeds");
    assert!(public_key.verify(&binding_data, &signature).is_ok());
}

#[test]
fn witness_bound_key_degrades_to_plain_generation() {
    let policy_hash = [0x5au8; 32];
    let (private_key, public_key) =
        generate_witness_bound_key(&policy_hash, None).expect("generation succeeds");
    assert_eq!(private_key.usage_count, 0, "no binding signature was made");
    assert!(public_key.verify(b"unrelated", &{
        let mut signer = private_key;
        signer.sign(b"unrelated").expect("signing succeeds")
    })
    .is_ok());
}

#[test]
fn secure_random_bytes_keeps_length_and_varies() {
    let mut first = vec![0u8; 32];
    secure_random_bytes(&mut first).expect("entropy is available");
    assert_eq!(first.len(), 32);
    let mut second = vec![0u8; 32];
    secure_random_bytes(&mut second).expect("entropy is available");
    assert_ne!(first, second, "two 256-bit draws never collide in practice");
    assert_ne!(first, vec![0u8; 32]);
}

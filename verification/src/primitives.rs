//! Trusted boundary to the cryptographic primitives.  Each function here is
//! an `external_body` wrapper around one outside call; its contract states
//! what that crate's source shows, usually by naming the call's result with
//! an uninterpreted spec function, since the primitive itself is a black box
//! to this library.

use vstd::prelude::*;

use aes_gcm::aead::{Aead, AeadCore};
use aes_gcm::KeyInit;
use ed25519_dalek::{Signer, Verifier};
use rand::{RngCore, SeedableRng};
use sha2::Digest;

use crate::errors::CryptoError;

verus! {

/// Byte width of a post-quantum public key
/// (`crystals_dilithium::dilithium3::PUBLICKEYBYTES`).
pub const DILITHIUM_PUBLIC_BYTES: usize = 1952;

/// Byte width of a post-quantum secret key
/// (`crystals_dilithium::dilithium3::SECRETKEYBYTES`).
pub const DILITHIUM_SECRET_BYTES: usize = 4000;

/// Byte width of a post-quantum signature
/// (`crystals_dilithium::dilithium3::SIGNBYTES`).
pub const DILITHIUM_SIGNATURE_BYTES: usize = 3293;

/// Byte width of a classical public key.
pub const ED25519_PUBLIC_BYTES: usize = 32;

/// Byte width of a classical signature.
pub const ED25519_SIGNATURE_BYTES: usize = 64;

/// The post-quantum signature over a message: deterministic in the secret
/// key and the message (the primitive signs in deterministic mode).
pub uninterp spec fn dilithium_signature_of(secret: Seq<u8>, message: Seq<u8>) -> Seq<u8>;

/// Whether the post-quantum primitive accepts a signature for a message
/// under a public key: deterministic in its three arguments.
pub uninterp spec fn dilithium_accepts(public: Seq<u8>, message: Seq<u8>, signature: Seq<u8>) -> bool;

/// The classical public key derived from a 32-byte secret: deterministic.
pub uninterp spec fn ed25519_public_of(secret: Seq<u8>) -> Seq<u8>;

/// The classical signature over a message: deterministic in the secret key
/// and the message.
pub uninterp spec fn ed25519_signature_of(secret: Seq<u8>, message: Seq<u8>) -> Seq<u8>;

/// Whether the classical primitive accepts a signature for a message under
/// 32 public-key bytes; false whenever the bytes do not decode to a key.
pub uninterp spec fn ed25519_accepts(public: Seq<u8>, message: Seq<u8>, signature: Seq<u8>) -> bool;

/// Whether 32 bytes decode to a valid classical public key.
pub uninterp spec fn ed25519_public_decodes(public: Seq<u8>) -> bool;

/// The classical secret key derived deterministically from a 32-byte seed
/// through the seeded pseudo-random generator.
pub uninterp spec fn ed25519_secret_from_seed(seed: Seq<u8>) -> Seq<u8>;

/// The SHA-256 digest of a byte sequence.
pub uninterp spec fn sha256_of(data: Seq<u8>) -> Seq<u8>;

/// The authenticated ciphertext of a payload under a 32-byte key and a
/// 12-byte nonce.
pub uninterp spec fn aes256gcm_seal(key: Seq<u8>, nonce: Seq<u8>, plaintext: Seq<u8>) -> Seq<u8>;

/// The result of authenticated decryption under a 32-byte key and a 12-byte
/// nonce: the payload, or nothing when authentication fails.
pub uninterp spec fn aes256gcm_open(key: Seq<u8>, nonce: Seq<u8>, ciphertext: Seq<u8>) -> Option<
    Seq<u8>,
>;

/// Relies on `crystals_dilithium::dilithium3::Keypair::generate(None)`: a
/// fresh keypair from internal randomness, whose halves have the fixed
/// widths, and whose deterministic signatures its own public key accepts
/// (the scheme's correctness, exercised by that crate's self-verification
/// tests).  With `None` for the entropy argument the call cannot fail.
#[verifier::external_body]
pub(crate) fn dilithium_generate() -> (r: (Vec<u8>, Vec<u8>))
    ensures
        r.0@.len() == DILITHIUM_PUBLIC_BYTES,
        r.1@.len() == DILITHIUM_SECRET_BYTES,
        forall|m: Seq<u8>| #[trigger]
            dilithium_accepts(r.0@, m, dilithium_signature_of(r.1@, m)),
{
    let keypair = crystals_dilithium::dilithium3::Keypair::generate(None).unwrap();
    (keypair.public.to_bytes().to_vec(), keypair.secret.to_bytes().to_vec())
}

/// Relies on `crystals_dilithium::dilithium3::SecretKey::sign`: a
/// deterministic signature of the fixed width, a function of the secret key
/// bytes and the message alone.
#[verifier::external_body]
pub(crate) fn dilithium_sign(secret: &[u8], message: &[u8]) -> (r: Vec<u8>)
    requires
        secret@.len() == DILITHIUM_SECRET_BYTES,
    ensures
        r@ == dilithium_signature_of(secret@, message@),
        r@.len() == DILITHIUM_SIGNATURE_BYTES,
{
    let key = crystals_dilithium::dilithium3::SecretKey::from_bytes(secret).unwrap();
    key.sign(message).to_vec()
}

/// Relies on `crystals_dilithium::dilithium3::PublicKey::verify`: a
/// deterministic accept/reject decision over the public-key bytes, the
/// message and the signature.
#[verifier::external_body]
pub(crate) fn dilithium_verify(public: &[u8], message: &[u8], signature: &[u8]) -> (r: bool)
    requires
        public@.len() == DILITHIUM_PUBLIC_BYTES,
    ensures
        r == dilithium_accepts(public@, message@, signature@),
{
    let key = crystals_dilithium::dilithium3::PublicKey::from_bytes(public).unwrap();
    key.verify(message, signature)
}

/// Relies on `ed25519_dalek::SigningKey::generate` with the operating
/// system's entropy source: 32 fresh secret-key bytes.  Nothing can be
/// promised of a random value; entropy failure aborts rather than degrade.
#[verifier::external_body]
pub(crate) fn ed25519_generate() -> (r: [u8; 32]) {
    let mut rng = rand_core::OsRng;
    let key = ed25519_dalek::SigningKey::generate(&mut rng);
    key.to_bytes()
}

/// Relies on `rand_chacha::ChaCha20Rng::from_seed` and
/// `ed25519_dalek::SigningKey::generate`: the generator is seeded with
/// exactly the 32 seed bytes and the key takes its 32 bytes from that
/// stream, so the result is a function of the seed alone.
#[verifier::external_body]
pub(crate) fn ed25519_key_from_seed(seed: &[u8; 32]) -> (r: [u8; 32])
    ensures
        r@ == ed25519_secret_from_seed(seed@),
{
    let mut rng = rand_chacha::ChaCha20Rng::from_seed(*seed);
    let key = ed25519_dalek::SigningKey::generate(&mut rng);
    key.to_bytes()
}

/// Relies on `ed25519_dalek::SigningKey::verifying_key`: the public key is a
/// function of the 32 secret bytes alone; its 32 bytes decode back through
/// `VerifyingKey::from_bytes`, and signatures produced by the matching
/// secret key verify under it (the scheme's correctness).
#[verifier::external_body]
pub(crate) fn ed25519_public_key(secret: &[u8; 32]) -> (r: [u8; 32])
    ensures
        r@ == ed25519_public_of(secret@),
        ed25519_public_decodes(r@),
        forall|m: Seq<u8>| #[trigger] ed25519_accepts(r@, m, ed25519_signature_of(secret@, m)),
{
    let key = ed25519_dalek::SigningKey::from_bytes(secret);
    key.verifying_key().to_bytes()
}

/// Relies on `ed25519_dalek::SigningKey::sign`: a deterministic 64-byte
/// signature, a function of the secret key bytes and the message alone.
#[verifier::external_body]
pub(crate) fn ed25519_sign(secret: &[u8; 32], message: &[u8]) -> (r: Vec<u8>)
    ensures
        r@ == ed25519_signature_of(secret@, message@),
        r@.len() == ED25519_SIGNATURE_BYTES,
{
    let key = ed25519_dalek::SigningKey::from_bytes(secret);
    key.sign(message).to_bytes().to_vec()
}

/// Relies on `ed25519_dalek::VerifyingKey::from_bytes`: whether 32 bytes
/// decode to a valid public key, a function of the bytes alone.
#[verifier::external_body]
pub(crate) fn ed25519_decode_check(public: &[u8]) -> (r: bool)
    requires
        public@.len() == ED25519_PUBLIC_BYTES,
    ensures
        r == ed25519_public_decodes(public@),
{
    let bytes: [u8; 32] = public.try_into().unwrap();
    ed25519_dalek::VerifyingKey::from_bytes(&bytes).is_ok()
}

/// Relies on `ed25519_dalek::VerifyingKey::from_bytes` and
/// `ed25519_dalek::Verifier::verify`: a deterministic accept/reject
/// decision, false whenever the public-key bytes do not decode.
#[verifier::external_body]
pub(crate) fn ed25519_verify(public: &[u8], message: &[u8], signature: &[u8]) -> (r: bool)
    requires
        public@.len() == ED25519_PUBLIC_BYTES,
        signature@.len() == ED25519_SIGNATURE_BYTES,
    ensures
        r == ed25519_accepts(public@, message@, signature@),
{
    let public_bytes: [u8; 32] = public.try_into().unwrap();
    let signature_bytes: [u8; 64] = signature.try_into().unwrap();
    match ed25519_dalek::VerifyingKey::from_bytes(&public_bytes) {
        Ok(key) => key.verify(message, &ed25519_dalek::Signature::from_bytes(&signature_bytes))
            .is_ok(),
        Err(_) => false,
    }
}

/// Relies on `sha2::Sha256::digest`: the 32-byte SHA-256 digest, a function
/// of the input bytes alone.
#[verifier::external_body]
pub(crate) fn sha256(data: &[u8]) -> (r: Vec<u8>)
    ensures
        r@ == sha256_of(data@),
        r@.len() == 32,
{
    sha2::Sha256::digest(data).to_vec()
}

/// Relies on `aes_gcm::Aes256Gcm` with `aes_gcm::aead::Aead::encrypt`: the
/// ciphertext is the payload's length plus the 16-byte authentication tag,
/// is a function of key, nonce and payload, and authenticated decryption
/// under the same key and nonce returns exactly the payload (the AEAD
/// round-trip contract).  The cipher rejects only payloads above its
/// 2^36-byte limit; the precondition stays below it, so the call succeeds.
#[verifier::external_body]
pub(crate) fn aes256gcm_encrypt(key: &[u8], nonce: &[u8], plaintext: &[u8]) -> (r: Option<Vec<u8>>)
    requires
        key@.len() == 32,
        nonce@.len() == 12,
        plaintext@.len() <= 0x1000000000,
    ensures
        r is Some,
        r matches Some(ciphertext) ==> {
            &&& ciphertext@ == aes256gcm_seal(key@, nonce@, plaintext@)
            &&& ciphertext@.len() == plaintext@.len() + 16
            &&& aes256gcm_open(key@, nonce@, ciphertext@) == Some(plaintext@)
        },
{
    let key_bytes: [u8; 32] = key.try_into().unwrap();
    let nonce_bytes: [u8; 12] = nonce.try_into().unwrap();
    let cipher = aes_gcm::Aes256Gcm::new(&aes_gcm::Key::<aes_gcm::Aes256Gcm>::from(key_bytes));
    cipher.encrypt(&aes_gcm::Nonce::from(nonce_bytes), plaintext).ok()
}

/// Relies on `aes_gcm::Aes256Gcm` with `aes_gcm::aead::Aead::decrypt`: the
/// result is a function of key, nonce and ciphertext; on authentication
/// failure nothing is returned, never a partial payload.
#[verifier::external_body]
pub(crate) fn aes256gcm_decrypt(key: &[u8], nonce: &[u8], ciphertext: &[u8]) -> (r: Option<Vec<u8>>)
    requires
        key@.len() == 32,
        nonce@.len() == 12,
    ensures
        r matches Some(plaintext) ==> aes256gcm_open(key@, nonce@, ciphertext@) == Some(
            plaintext@,
        ),
        r is None ==> aes256gcm_open(key@, nonce@, ciphertext@) is None,
{
    let key_bytes: [u8; 32] = key.try_into().unwrap();
    let nonce_bytes: [u8; 12] = nonce.try_into().unwrap();
    let cipher = aes_gcm::Aes256Gcm::new(&aes_gcm::Key::<aes_gcm::Aes256Gcm>::from(key_bytes));
    match cipher.decrypt(&aes_gcm::Nonce::from(nonce_bytes), ciphertext) {
        Ok(plaintext) => Some(plaintext),
        Err(_) => None,
    }
}

/// Relies on `aes_gcm::aead::AeadCore::generate_nonce` with the operating
/// system's entropy source: 12 fresh nonce bytes.  Nothing can be promised
/// of a random value.
#[verifier::external_body]
pub(crate) fn generate_nonce() -> (r: [u8; 12]) {
    let nonce = aes_gcm::Aes256Gcm::generate_nonce(&mut rand::rngs::OsRng);
    nonce.into()
}

/// Relies on `rand::rngs::OsRng::fill_bytes`: fills the buffer from the
/// operating-system entropy source, keeping its length; an entropy failure
/// aborts rather than fall back to a weaker source.
#[verifier::external_body]
pub fn secure_random_bytes(buffer: &mut Vec<u8>) -> (r: Result<(), CryptoError>)
    ensures
        final(buffer)@.len() == old(buffer)@.len(),
        r is Ok,
{
    let mut rng = rand::rngs::OsRng;
    rng.fill_bytes(buffer.as_mut_slice());
    Ok(())
}

/// Relies on `std::time::SystemTime::now`: seconds since the Unix epoch,
/// or zero if the clock reads before it.  A wall-clock value; nothing can
/// be promised of it.
#[verifier::external_body]
pub(crate) fn now_seconds() -> (r: u64) {
    match std::time::SystemTime::now().duration_since(std::time::UNIX_EPOCH) {
        Ok(elapsed) => elapsed.as_secs(),
        Err(_) => 0,
    }
}

} // verus!

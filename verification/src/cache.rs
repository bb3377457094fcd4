//! Encrypted secret cache: at-rest protection for the post-quantum secret
//! half of a seed-derived key pair.
//!
//! The file-encryption key and the file name are both one-way hashes over
//! the seed, under distinct domain-separation labels, so neither the key
//! nor the name leaks the seed and two seeds map to different names.  The
//! stored blob is `nonce || ciphertext` with a fresh 12-byte nonce per
//! write; the payload is the post-quantum public key followed by the secret
//! key at their fixed widths.  Reading and writing the file itself is the
//! caller's concern: this module only seals and opens blobs and derives and
//! validates the file name.

use vstd::prelude::*;

use vstd::slice::{slice_subrange, slice_to_vec};

use crate::encoding::{
    chars_of_bytes, hex_bytes_of, lemma_hex_bytes_range, push_all, push_hex_bytes,
    string_from_ascii,
};
use crate::errors::{CacheFault, CryptoError, OperationFault};
use crate::keys::DilithiumKeyMaterial;
use crate::primitives::{
    aes256gcm_decrypt, aes256gcm_encrypt, aes256gcm_open, aes256gcm_seal, generate_nonce, sha256,
    sha256_of,
    DILITHIUM_PUBLIC_BYTES, DILITHIUM_SECRET_BYTES,
};

verus! {

/// Byte length of the nonce prefix of a cache blob.
pub const CACHE_NONCE_BYTES: usize = 12;

/// ASCII bytes of the first domain-separation label of the key derivation
/// (`AF_ENCRYPTION_KEY_V1`).
pub open spec fn key_derivation_label_head() -> Seq<u8> {
    seq![
        65u8,
        70u8,
        95u8,
        69u8,
        78u8,
        67u8,
        82u8,
        89u8,
        80u8,
        84u8,
        73u8,
        79u8,
        78u8,
        95u8,
        75u8,
        69u8,
        89u8,
        95u8,
        86u8,
        49u8,
    ]
}

/// ASCII bytes of the second domain-separation label of the key derivation
/// (`DILITHIUM_STORAGE`).
pub open spec fn key_derivation_label_tail() -> Seq<u8> {
    seq![
        68u8,
        73u8,
        76u8,
        73u8,
        84u8,
        72u8,
        73u8,
        85u8,
        77u8,
        95u8,
        83u8,
        84u8,
        79u8,
        82u8,
        65u8,
        71u8,
        69u8,
    ]
}

/// ASCII bytes of the domain-separation label of the file-name derivation
/// (`AF_FILENAME_V1`); distinct from the key-derivation labels.
pub open spec fn filename_label() -> Seq<u8> {
    seq![65u8, 70u8, 95u8, 70u8, 73u8, 76u8, 69u8, 78u8, 65u8, 77u8, 69u8, 95u8, 86u8, 49u8]
}

/// ASCII bytes of the cache file-name prefix (`.af_dilithium_`).
pub open spec fn cache_filename_prefix() -> Seq<u8> {
    seq![
        46u8,
        97u8,
        102u8,
        95u8,
        100u8,
        105u8,
        108u8,
        105u8,
        116u8,
        104u8,
        105u8,
        117u8,
        109u8,
        95u8,
    ]
}

/// The file-encryption key: a one-way hash over the labelled seed, never
/// the seed itself.
pub open spec fn cache_key_of(seed: Seq<u8>) -> Seq<u8> {
    sha256_of(key_derivation_label_head() + seed + key_derivation_label_tail())
}

/// The cache file name, as ASCII bytes: the fixed prefix followed by the
/// hex of the first 16 bytes of a one-way hash of the labelled seed.
pub open spec fn cache_filename_bytes_of(seed: Seq<u8>) -> Seq<u8> {
    cache_filename_prefix() + hex_bytes_of(sha256_of(filename_label() + seed).take(16))
}

/// The plaintext payload of a cache blob: the post-quantum public key
/// followed by the secret key.
pub open spec fn cache_payload_of(material: DilithiumKeyMaterial) -> Seq<u8> {
    material.public@ + material.secret@
}

/// The complete outcome of opening a cache blob under a seed: the two
/// payload halves, or the first failing gate.
pub open spec fn decrypt_outcome(seed: Seq<u8>, blob: Seq<u8>) -> Result<
    (Seq<u8>, Seq<u8>),
    CryptoError,
> {
    if blob.len() < CACHE_NONCE_BYTES {
        Err(CryptoError::CacheFailure(CacheFault::FileTooShort))
    } else {
        match aes256gcm_open(
            cache_key_of(seed),
            blob.take(CACHE_NONCE_BYTES as int),
            blob.skip(CACHE_NONCE_BYTES as int),
        ) {
            Option::None => Err(CryptoError::CacheFailure(CacheFault::DecryptionFailed)),
            Option::Some(payload) => if payload.len() != DILITHIUM_PUBLIC_BYTES
                + DILITHIUM_SECRET_BYTES {
                Err(CryptoError::CacheFailure(CacheFault::PayloadLengthMismatch))
            } else {
                Ok(
                    (
                        payload.take(DILITHIUM_PUBLIC_BYTES as int),
                        payload.skip(DILITHIUM_PUBLIC_BYTES as int),
                    ),
                )
            },
        }
    }
}

/// A file name that resolves to a single relative path segment: nonempty,
/// no separator bytes, and not one of the two dot segments.
pub open spec fn path_safe(name: Seq<u8>) -> bool {
    &&& name.len() > 0
    &&& forall|i: int| 0 <= i < name.len() ==> #[trigger] name[i] != 47 && name[i] != 92
    &&& name != seq![46u8]
    &&& name != seq![46u8, 46u8]
}

/// Derives the file-encryption key from the seed: a one-way hash over the
/// two domain-separation labels around the seed.
pub fn derive_encryption_key(seed: &[u8; 32]) -> (r: Vec<u8>)
    ensures
        r@ == cache_key_of(seed@),
        r@.len() == 32,
{
    let mut input: Vec<u8> = Vec::new();
    input.push(65);
    input.push(70);
    input.push(95);
    input.push(69);
    input.push(78);
    input.push(67);
    input.push(82);
    input.push(89);
    input.push(80);
    input.push(84);
    input.push(73);
    input.push(79);
    input.push(78);
    input.push(95);
    input.push(75);
    input.push(69);
    input.push(89);
    input.push(95);
    input.push(86);
    input.push(49);
    proof {
        assert(input@ =~= key_derivation_label_head());
    }
    push_all(&mut input, seed.as_slice());
    input.push(68);
    input.push(73);
    input.push(76);
    input.push(73);
    input.push(84);
    input.push(72);
    input.push(73);
    input.push(85);
    input.push(77);
    input.push(95);
    input.push(83);
    input.push(84);
    input.push(79);
    input.push(82);
    input.push(65);
    input.push(71);
    input.push(69);
    proof {
        assert(input@ =~= key_derivation_label_head() + seed@ + key_derivation_label_tail());
    }
    sha256(input.as_slice())
}

/// Builds the cache file name as ASCII bytes.
fn cache_filename_bytes(seed: &[u8; 32]) -> (r: Vec<u8>)
    ensures
        r@ == cache_filename_bytes_of(seed@),
{
    let mut input: Vec<u8> = Vec::new();
    input.push(65);
    input.push(70);
    input.push(95);
    input.push(70);
    input.push(73);
    input.push(76);
    input.push(69);
    input.push(78);
    input.push(65);
    input.push(77);
    input.push(69);
    input.push(95);
    input.push(86);
    input.push(49);
    proof {
        assert(input@ =~= filename_label());
    }
    push_all(&mut input, seed.as_slice());
    let digest = sha256(input.as_slice());
    let mut name: Vec<u8> = Vec::new();
    name.push(46);
    name.push(97);
    name.push(102);
    name.push(95);
    name.push(100);
    name.push(105);
    name.push(108);
    name.push(105);
    name.push(116);
    name.push(104);
    name.push(105);
    name.push(117);
    name.push(109);
    name.push(95);
    proof {
        assert(name@ =~= cache_filename_prefix());
    }
    let digest_head = slice_subrange(digest.as_slice(), 0, 16);
    push_hex_bytes(digest_head, &mut name);
    name
}

/// Every byte of a derived cache file name is printable ASCII and no byte
/// is a path separator, so the name is a safe single segment.
pub proof fn lemma_derived_filename_safe(seed: Seq<u8>)
    ensures
        path_safe(cache_filename_bytes_of(seed)),
        forall|i: int|
            0 <= i < cache_filename_bytes_of(seed).len() ==> #[trigger] cache_filename_bytes_of(
                seed,
            )[i] < 128,
{
    let digest_head = sha256_of(filename_label() + seed).take(16);
    lemma_hex_bytes_range(digest_head);
    let name = cache_filename_bytes_of(seed);
    assert forall|i: int| 0 <= i < name.len() implies #[trigger] name[i] != 47 && name[i] != 92
        && name[i] < 128 by {
        if i >= cache_filename_prefix().len() {
            assert(name[i] == hex_bytes_of(digest_head)[i - cache_filename_prefix().len()]);
        }
    }
    assert(name.len() > 2);
}

/// Derives the cache file name for a seed.
pub fn generate_secure_filename(seed: &[u8; 32]) -> (r: String)
    ensures
        r@ == chars_of_bytes(cache_filename_bytes_of(seed@)),
{
    let name = cache_filename_bytes(seed);
    proof {
        lemma_derived_filename_safe(seed@);
    }
    string_from_ascii(name)
}

/// Scans a file name for the single-segment path property.
pub fn path_is_single_segment(name: &Vec<u8>) -> (r: bool)
    ensures
        r == path_safe(name@),
{
    if name.len() == 0 {
        return false;
    }
    if name.len() == 1 && name[0] == 46 {
        proof {
            assert(name@ =~= seq![46u8]);
        }
        return false;
    }
    if name.len() == 2 && name[0] == 46 && name[1] == 46 {
        proof {
            assert(name@ =~= seq![46u8, 46u8]);
        }
        return false;
    }
    let n = name.len();
    for i in 0..n
        invariant
            n == name@.len(),
            forall|j: int| 0 <= j < i ==> #[trigger] name@[j] != 47 && name@[j] != 92,
    {
        if name[i] == 47 || name[i] == 92 {
            return false;
        }
    }
    proof {
        if name@ == seq![46u8] {
            assert(name@.len() == 1 && name@[0] == 46);
        }
        if name@ == seq![46u8, 46u8] {
            assert(name@.len() == 2 && name@[0] == 46 && name@[1] == 46);
        }
    }
    true
}

/// Derives the cache file name and checks, before any file operation, that
/// it resolves to a single relative path segment; a derivation that ever
/// produced an absolute or multi-segment name would be rejected here.  For
/// the hash-and-hex derivation above the check always passes.
pub fn validate_encrypted_file_path(seed: &[u8; 32]) -> (r: Result<String, CryptoError>)
    ensures
        r matches Ok(name) && name@ == chars_of_bytes(cache_filename_bytes_of(seed@)),
        path_safe(cache_filename_bytes_of(seed@)),
{
    let name = cache_filename_bytes(seed);
    proof {
        lemma_derived_filename_safe(seed@);
    }
    if !path_is_single_segment(&name) {
        return Err(CryptoError::InvalidOperation(OperationFault::UnsafeCachePath));
    }
    Ok(string_from_ascii(name))
}

/// Seals the post-quantum key material into a cache blob: a fresh random
/// nonce, then the payload under authenticated encryption with the derived
/// key.  Sealing always succeeds, since the fixed-width payload is far
/// below the cipher's limit, and the blob opens back to exactly the sealed
/// material under the same seed.
pub fn encrypt_keypair_for_cache(seed: &[u8; 32], material: &DilithiumKeyMaterial) -> (r: Result<
    Vec<u8>,
    CryptoError,
>)
    requires
        material.wf(),
    ensures
        r is Ok,
        r matches Ok(blob) ==> {
            &&& decrypt_outcome(seed@, blob@) == Ok::<(Seq<u8>, Seq<u8>), CryptoError>(
                (material.public@, material.secret@),
            )
            &&& blob@.len() == CACHE_NONCE_BYTES + DILITHIUM_PUBLIC_BYTES + DILITHIUM_SECRET_BYTES
                + 16
            &&& blob@.skip(CACHE_NONCE_BYTES as int) == aes256gcm_seal(
                cache_key_of(seed@),
                blob@.take(CACHE_NONCE_BYTES as int),
                cache_payload_of(*material),
            )
        },
{
    let key = derive_encryption_key(seed);
    let nonce = generate_nonce();

    let mut payload: Vec<u8> = Vec::new();
    push_all(&mut payload, material.public.as_slice());
    push_all(&mut payload, material.secret.as_slice());
    proof {
        assert(payload@ =~= cache_payload_of(*material));
    }

    let ciphertext = match aes256gcm_encrypt(key.as_slice(), nonce.as_slice(), payload.as_slice()) {
        Option::Some(ciphertext) => ciphertext,
        Option::None => {
            return Err(CryptoError::CacheFailure(CacheFault::EncryptionFailed));
        },
    };

    let mut blob: Vec<u8> = Vec::new();
    push_all(&mut blob, nonce.as_slice());
    push_all(&mut blob, ciphertext.as_slice());
    proof {
        assert(blob@.take(CACHE_NONCE_BYTES as int) =~= nonce@);
        assert(blob@.skip(CACHE_NONCE_BYTES as int) =~= ciphertext@);
        assert(payload@.take(DILITHIUM_PUBLIC_BYTES as int) =~= material.public@);
        assert(payload@.skip(DILITHIUM_PUBLIC_BYTES as int) =~= material.secret@);
    }
    Ok(blob)
}

/// Opens a cache blob under a seed: splits the nonce off the front, opens
/// the remainder under the derived key, and accepts only a payload with the
/// two fixed key widths.  A failed authentication is reported as a distinct
/// decryption failure and nothing of the payload is returned.
pub fn decrypt_keypair_from_cache(seed: &[u8; 32], blob: &Vec<u8>) -> (r: Result<
    DilithiumKeyMaterial,
    CryptoError,
>)
    ensures
        match decrypt_outcome(seed@, blob@) {
            Ok(halves) => r matches Ok(material) && material.public@ == halves.0
                && material.secret@ == halves.1 && material.wf(),
            Err(fault) => r == Err::<DilithiumKeyMaterial, CryptoError>(fault),
        },
{
    if blob.len() < CACHE_NONCE_BYTES {
        return Err(CryptoError::CacheFailure(CacheFault::FileTooShort));
    }
    let nonce = slice_subrange(blob.as_slice(), 0, CACHE_NONCE_BYTES);
    let ciphertext = slice_subrange(blob.as_slice(), CACHE_NONCE_BYTES, blob.len());
    let key = derive_encryption_key(seed);
    let payload = match aes256gcm_decrypt(key.as_slice(), nonce, ciphertext) {
        Option::Some(payload) => payload,
        Option::None => {
            return Err(CryptoError::CacheFailure(CacheFault::DecryptionFailed));
        },
    };
    if payload.len() != DILITHIUM_PUBLIC_BYTES + DILITHIUM_SECRET_BYTES {
        return Err(CryptoError::CacheFailure(CacheFault::PayloadLengthMismatch));
    }
    let public = slice_to_vec(slice_subrange(payload.as_slice(), 0, DILITHIUM_PUBLIC_BYTES));
    let secret = slice_to_vec(
        slice_subrange(payload.as_slice(), DILITHIUM_PUBLIC_BYTES, payload.len()),
    );
    Ok(DilithiumKeyMaterial { public, secret })
}

} // verus!

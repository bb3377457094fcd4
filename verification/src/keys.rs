//! Key material model and the hybrid generate/sign protocol.
//!
//! A private key owns both halves of the hybrid material together or not at
//! all, a usage counter bumped by every accounted signing attempt, and
//! provenance metadata.  A public key is the byte-for-byte concatenation of
//! the post-quantum public key and the classical public key; a signature is
//! the concatenation of the two signatures, in the same order, with
//! fixed-width segments.

use vstd::prelude::*;

use crate::algorithm::AlgorithmVersion;
use crate::encoding::{chars_of_bytes, decimal_bytes_of, push_decimal_bytes, string_from_ascii};
use crate::encoding::lemma_decimal_bytes_range;
use crate::errors::{CryptoError, KeyFault, OperationFault};
use crate::primitives::{
    dilithium_accepts, dilithium_generate, dilithium_sign, dilithium_signature_of,
    ed25519_accepts, ed25519_generate, ed25519_public_decodes, ed25519_public_key,
    ed25519_public_of, ed25519_sign, ed25519_signature_of, now_seconds, DILITHIUM_PUBLIC_BYTES,
    DILITHIUM_SECRET_BYTES, DILITHIUM_SIGNATURE_BYTES, ED25519_SIGNATURE_BYTES,
};

verus! {

/// Largest message, in bytes, that signing accepts.
pub const MAX_MESSAGE_BYTES: usize = 1048576;

/// Number of accounted uses at which a key is exhausted: the signing call
/// whose increment makes the counter reach this value is rejected.
pub const KEY_USAGE_LIMIT: u64 = 1000000;

/// The post-quantum half of a key: the public and secret key bytes at their
/// fixed widths, together.
pub struct DilithiumKeyMaterial {
    pub public: Vec<u8>,
    pub secret: Vec<u8>,
}

impl DilithiumKeyMaterial {
    /// Both halves have the widths fixed by the primitive.
    pub open spec fn wf(&self) -> bool {
        &&& self.public@.len() == DILITHIUM_PUBLIC_BYTES
        &&& self.secret@.len() == DILITHIUM_SECRET_BYTES
    }

    /// The two halves belong together: the public key accepts every
    /// signature the secret key produces.
    pub open spec fn sound(&self) -> bool {
        forall|m: Seq<u8>| #[trigger]
            dilithium_accepts(self.public@, m, dilithium_signature_of(self.secret@, m))
    }
}

/// Key material.  The two legacy single-algorithm variants can still be
/// written down, but every operation rejects them; only the hybrid variant,
/// which holds both halves at once, is live.
pub enum KeyMaterialInner {
    Dilithium(DilithiumKeyMaterial),
    Ed25519([u8; 32]),
    MandatoryHybrid { dilithium: DilithiumKeyMaterial, ed25519: [u8; 32] },
}

/// The public-key bytes a hybrid key determines: post-quantum public key
/// first, then the 32 classical public-key bytes.
pub open spec fn hybrid_public_bytes_of(inner: KeyMaterialInner) -> Seq<u8>
    recommends
        inner is MandatoryHybrid,
{
    match inner {
        KeyMaterialInner::MandatoryHybrid { dilithium, ed25519 } => dilithium.public@
            + ed25519_public_of(ed25519@),
        _ => Seq::empty(),
    }
}

/// The signature bytes a hybrid key produces over a message: post-quantum
/// signature first, then the 64 classical signature bytes.
pub open spec fn hybrid_signature_bytes_of(inner: KeyMaterialInner, message: Seq<u8>) -> Seq<u8>
    recommends
        inner is MandatoryHybrid,
{
    match inner {
        KeyMaterialInner::MandatoryHybrid { dilithium, ed25519 } => dilithium_signature_of(
            dilithium.secret@,
            message,
        ) + ed25519_signature_of(ed25519@, message),
        _ => Seq::empty(),
    }
}

/// Hybrid material is well formed when its post-quantum half has the fixed
/// widths; the legacy variants carry no obligations, since nothing operates
/// on them.
pub open spec fn material_wf(inner: KeyMaterialInner) -> bool {
    match inner {
        KeyMaterialInner::MandatoryHybrid { dilithium, ed25519 } => dilithium.wf(),
        _ => true,
    }
}

/// What generation establishes of hybrid material beyond well-formedness:
/// each half's public key accepts that half's signatures, and the classical
/// public-key bytes decode back to a valid key.
pub open spec fn material_sound(inner: KeyMaterialInner) -> bool {
    match inner {
        KeyMaterialInner::MandatoryHybrid { dilithium, ed25519 } => {
            &&& dilithium.sound()
            &&& ed25519_public_of(ed25519@).len() == 32
            &&& ed25519_public_decodes(ed25519_public_of(ed25519@))
            &&& forall|m: Seq<u8>| #[trigger]
                ed25519_accepts(
                    ed25519_public_of(ed25519@),
                    m,
                    ed25519_signature_of(ed25519@, m),
                )
        },
        _ => true,
    }
}

/// An honestly produced hybrid signature: the concatenation the key
/// material determines for the message, with both segments at their fixed
/// widths.  Signing establishes this of every signature it returns.
pub open spec fn honest_signature(inner: KeyMaterialInner, message: Seq<u8>, sig: Signature) -> bool {
    &&& sig.bytes@ == hybrid_signature_bytes_of(inner, message)
    &&& match inner {
        KeyMaterialInner::MandatoryHybrid { dilithium, ed25519 } => {
            &&& dilithium_signature_of(dilithium.secret@, message).len()
                == DILITHIUM_SIGNATURE_BYTES
            &&& ed25519_signature_of(ed25519@, message).len() == ED25519_SIGNATURE_BYTES
        },
        _ => false,
    }
}

/// Private key with usage tracking and provenance metadata.  Only the usage
/// counter is ever mutated after construction, and only through the
/// exclusive reference that `sign` takes, which serializes a key's
/// accounted uses; callers that share one key across threads must wrap it
/// in their own synchronization.
pub struct PrivateKey {
    pub algorithm: AlgorithmVersion,
    pub inner: KeyMaterialInner,
    pub created_at: u64,
    pub operation_id: u64,
    pub usage_count: u64,
    pub key_id: String,
}

/// Public key for signature verification.  Immutable, safe to persist in
/// cleartext.
#[derive(Debug, Clone)]
pub struct PublicKey {
    pub algorithm: AlgorithmVersion,
    pub bytes: Vec<u8>,
    pub created_at: u64,
    pub operation_id: u64,
}

/// Digital signature with provenance metadata.  Immutable.
#[derive(Debug, Clone)]
pub struct Signature {
    pub algorithm: AlgorithmVersion,
    pub bytes: Vec<u8>,
    pub created_at: u64,
    pub operation_id: u64,
    pub signer_key_id: String,
}

/// A private key and a public key describe the same hybrid key material.
/// This byte-for-byte reproducibility is a correctness invariant, not a
/// convention.
pub open spec fn key_pair_linked(sk: PrivateKey, pk: PublicKey) -> bool {
    &&& sk.algorithm is MandatoryHybrid
    &&& pk.algorithm == sk.algorithm
    &&& sk.inner is MandatoryHybrid
    &&& pk.bytes@ == hybrid_public_bytes_of(sk.inner)
    &&& pk.created_at == sk.created_at
    &&& pk.operation_id == sk.operation_id
}

/// Everything hybrid generation establishes of a fresh pair, except the
/// key-identifier text, which differs between the random and the
/// seed-derived paths.
pub open spec fn generated_hybrid_pair(sk: PrivateKey, pk: PublicKey) -> bool {
    &&& key_pair_linked(sk, pk)
    &&& material_wf(sk.inner)
    &&& material_sound(sk.inner)
    &&& sk.usage_count == 0
}

/// ASCII bytes of the key-identifier prefix of randomly generated keys.
pub open spec fn mandatory_key_id_prefix() -> Seq<u8> {
    seq![
        109u8,
        97u8,
        110u8,
        100u8,
        97u8,
        116u8,
        111u8,
        114u8,
        121u8,
        45u8,
        104u8,
        121u8,
        98u8,
        114u8,
        105u8,
        100u8,
        45u8,
    ]
}

/// The key-identifier text of a randomly generated key: the prefix followed
/// by the operation identifier in decimal.
pub open spec fn mandatory_key_id_chars(operation_id: u64) -> Seq<char> {
    chars_of_bytes(mandatory_key_id_prefix() + decimal_bytes_of(operation_id as nat))
}

/// Builds the key identifier of a randomly generated key.
fn make_mandatory_key_id(operation_id: u64) -> (r: String)
    ensures
        r@ == mandatory_key_id_chars(operation_id),
{
    let mut bytes: Vec<u8> = Vec::new();
    bytes.push(109);
    bytes.push(97);
    bytes.push(110);
    bytes.push(100);
    bytes.push(97);
    bytes.push(116);
    bytes.push(111);
    bytes.push(114);
    bytes.push(121);
    bytes.push(45);
    bytes.push(104);
    bytes.push(121);
    bytes.push(98);
    bytes.push(114);
    bytes.push(105);
    bytes.push(100);
    bytes.push(45);
    proof {
        assert(bytes@ =~= mandatory_key_id_prefix());
    }
    push_decimal_bytes(operation_id, &mut bytes);
    proof {
        lemma_decimal_bytes_range(operation_id as nat);
        assert forall|i: int| 0 <= i < bytes@.len() implies bytes@[i] < 128 by {
            if i >= mandatory_key_id_prefix().len() {
                assert(bytes@[i] == decimal_bytes_of(operation_id as nat)[i - 17]);
            }
        }
    }
    string_from_ascii(bytes)
}

/// Concatenates the two public-key halves into the published byte layout.
pub(crate) fn build_public_bytes(dilithium_public: &Vec<u8>, ed25519_public: &[u8; 32]) -> (r: Vec<u8>)
    ensures
        r@ == dilithium_public@ + ed25519_public@,
{
    let mut bytes: Vec<u8> = Vec::new();
    let n = dilithium_public.len();
    for i in 0..n
        invariant
            n == dilithium_public@.len(),
            bytes@ =~= dilithium_public@.take(i as int),
    {
        bytes.push(dilithium_public[i]);
    }
    proof {
        assert(bytes@ =~= dilithium_public@);
    }
    for i in 0..32usize
        invariant
            bytes@ =~= dilithium_public@ + ed25519_public@.take(i as int),
    {
        bytes.push(ed25519_public[i]);
    }
    proof {
        assert(bytes@ =~= dilithium_public@ + ed25519_public@);
    }
    bytes
}

impl PrivateKey {
    /// The material a signing key operates on is well formed; established
    /// by every generation path and preserved thereafter, since nothing
    /// mutates the material.
    pub open spec fn wf(&self) -> bool {
        material_wf(self.inner)
    }

    /// Generate a new hybrid keypair from operating-system entropy.
    pub fn generate() -> (r: Result<(PrivateKey, PublicKey), CryptoError>)
        ensures
            r matches Ok(pair) && generated_hybrid_pair(pair.0, pair.1) && pair.0.key_id@
                == mandatory_key_id_chars(pair.0.operation_id),
    {
        Self::generate_with_algorithm(AlgorithmVersion::MandatoryHybrid)
    }

    /// Generate a keypair under a specific algorithm version.  The two
    /// legacy versions are rejected by permanent policy before any key
    /// material is produced; the hybrid version always yields a pair.
    pub fn generate_with_algorithm(algorithm: AlgorithmVersion) -> (r: Result<
        (PrivateKey, PublicKey),
        CryptoError,
    >)
        ensures
            r is Ok <==> algorithm is MandatoryHybrid,
            !(algorithm is MandatoryHybrid) ==> r == Err::<(PrivateKey, PublicKey), CryptoError>(
                CryptoError::UnsupportedAlgorithm(algorithm),
            ),
            r matches Ok(pair) ==> generated_hybrid_pair(pair.0, pair.1) && pair.0.key_id@
                == mandatory_key_id_chars(pair.0.operation_id),
    {
        match algorithm {
            AlgorithmVersion::MandatoryHybrid => {
                let operation_id = now_seconds();
                let (dilithium_public, dilithium_secret) = dilithium_generate();
                let ed25519_secret = ed25519_generate();
                let ed25519_public = ed25519_public_key(&ed25519_secret);

                let public_bytes = build_public_bytes(&dilithium_public, &ed25519_public);
                let inner = KeyMaterialInner::MandatoryHybrid {
                    dilithium: DilithiumKeyMaterial {
                        public: dilithium_public,
                        secret: dilithium_secret,
                    },
                    ed25519: ed25519_secret,
                };

                let now = now_seconds();
                let key_id = make_mandatory_key_id(operation_id);

                let private_key = PrivateKey {
                    algorithm,
                    inner,
                    created_at: now,
                    operation_id,
                    usage_count: 0,
                    key_id,
                };
                let public_key = PublicKey {
                    algorithm,
                    bytes: public_bytes,
                    created_at: now,
                    operation_id,
                };
                Ok((private_key, public_key))
            },
            AlgorithmVersion::Dilithium3V1 => Err(CryptoError::UnsupportedAlgorithm(algorithm)),
            AlgorithmVersion::Ed25519V1 => Err(CryptoError::UnsupportedAlgorithm(algorithm)),
        }
    }

    /// Extract the corresponding public key: the exact concatenation the
    /// generation paths publish, under the key's own algorithm tag and
    /// provenance.  Legacy material is rejected.
    pub fn public_key(&self) -> (r: Result<PublicKey, CryptoError>)
        ensures
            match self.inner {
                KeyMaterialInner::Dilithium(_) => r == Err::<PublicKey, CryptoError>(
                    CryptoError::InvalidKey(KeyFault::LegacyDilithiumMaterial),
                ),
                KeyMaterialInner::Ed25519(_) => r == Err::<PublicKey, CryptoError>(
                    CryptoError::InvalidKey(KeyFault::LegacyEd25519Material),
                ),
                KeyMaterialInner::MandatoryHybrid { .. } => r matches Ok(pk) && {
                    &&& pk.algorithm == self.algorithm
                    &&& pk.bytes@ == hybrid_public_bytes_of(self.inner)
                    &&& pk.created_at == self.created_at
                    &&& pk.operation_id == self.operation_id
                },
            },
    {
        match &self.inner {
            KeyMaterialInner::Dilithium(_) => Err(
                CryptoError::InvalidKey(KeyFault::LegacyDilithiumMaterial),
            ),
            KeyMaterialInner::Ed25519(_) => Err(
                CryptoError::InvalidKey(KeyFault::LegacyEd25519Material),
            ),
            KeyMaterialInner::MandatoryHybrid { dilithium, ed25519 } => {
                let ed25519_public = ed25519_public_key(ed25519);
                let bytes = build_public_bytes(&dilithium.public, &ed25519_public);
                Ok(
                    PublicKey {
                        algorithm: self.algorithm,
                        bytes,
                        created_at: self.created_at,
                        operation_id: self.operation_id,
                    },
                )
            },
        }
    }
}

/// The usage counter after one more accounted attempt; the counter
/// saturates rather than wrap.
pub open spec fn bumped(count: u64) -> u64 {
    if count == u64::MAX {
        count
    } else {
        (count + 1) as u64
    }
}

/// Usage-counter monotonicity over a whole run: starting from a fresh key,
/// after n accounted signing attempts - successful or limit-rejected alike,
/// each moving the counter as `sign` ensures - the counter reads exactly n,
/// for every n a 64-bit counter can hold.  `counters[i]` is the counter
/// after i accounted attempts.
pub proof fn lemma_usage_counter_counts_attempts(counters: Seq<u64>, n: int)
    requires
        0 <= n < counters.len(),
        counters[0] == 0,
        forall|i: int| 0 <= i < counters.len() - 1 ==> counters[i + 1] == bumped(#[trigger] counters[i]),
        n <= u64::MAX,
    ensures
        counters[n] == n,
    decreases n,
{
    if n > 0 {
        lemma_usage_counter_counts_attempts(counters, n - 1);
    }
}

/// A message may be signed when it is neither empty nor above the fixed
/// size limit.
pub open spec fn message_size_ok(message: Seq<u8>) -> bool {
    1 <= message.len() <= MAX_MESSAGE_BYTES
}

impl PrivateKey {
    /// Create a hybrid digital signature over a message.
    ///
    /// Empty and oversized messages are rejected before any accounting.
    /// Every other call is accounted: the usage counter is incremented
    /// first, and the call is rejected once the counter would reach the
    /// usage limit, so the counter observed at rejection reflects the
    /// attempted use.  Legacy material never signs.  On success the
    /// signature is the fixed-layout concatenation of the post-quantum and
    /// classical signatures over the identical message bytes, stamped with
    /// the signer's key identifier.
    pub fn sign(&mut self, message: &[u8]) -> (r: Result<Signature, CryptoError>)
        requires
            old(self).wf(),
        ensures
            final(self).algorithm == old(self).algorithm,
            final(self).inner == old(self).inner,
            final(self).created_at == old(self).created_at,
            final(self).operation_id == old(self).operation_id,
            final(self).key_id == old(self).key_id,
            !message_size_ok(message@) ==> final(self).usage_count == old(self).usage_count,
            message@.len() == 0 ==> r == Err::<Signature, CryptoError>(
                CryptoError::InvalidOperation(OperationFault::EmptyMessage),
            ),
            message@.len() > MAX_MESSAGE_BYTES ==> r == Err::<Signature, CryptoError>(
                CryptoError::InvalidOperation(OperationFault::MessageTooLarge),
            ),
            message_size_ok(message@) ==> final(self).usage_count == bumped(
                old(self).usage_count,
            ),
            message_size_ok(message@) && bumped(old(self).usage_count) >= KEY_USAGE_LIMIT ==> r
                == Err::<Signature, CryptoError>(
                CryptoError::KeyUsageExceeded {
                    count: bumped(old(self).usage_count),
                    max: KEY_USAGE_LIMIT,
                },
            ),
            message_size_ok(message@) && bumped(old(self).usage_count) < KEY_USAGE_LIMIT ==> match old(
                self,
            ).inner {
                KeyMaterialInner::Dilithium(_) => r == Err::<Signature, CryptoError>(
                    CryptoError::InvalidOperation(OperationFault::LegacyDilithiumSigning),
                ),
                KeyMaterialInner::Ed25519(_) => r == Err::<Signature, CryptoError>(
                    CryptoError::InvalidOperation(OperationFault::LegacyEd25519Signing),
                ),
                KeyMaterialInner::MandatoryHybrid { .. } => r matches Ok(sig) && {
                    &&& sig.algorithm == old(self).algorithm
                    &&& honest_signature(old(self).inner, message@, sig)
                    &&& sig.signer_key_id@ == old(self).key_id@
                },
            },
    {
        if message.len() == 0 {
            return Err(CryptoError::InvalidOperation(OperationFault::EmptyMessage));
        }
        if message.len() > MAX_MESSAGE_BYTES {
            return Err(CryptoError::InvalidOperation(OperationFault::MessageTooLarge));
        }
        if self.usage_count < u64::MAX {
            self.usage_count = self.usage_count + 1;
        }
        if self.usage_count >= KEY_USAGE_LIMIT {
            return Err(
                CryptoError::KeyUsageExceeded { count: self.usage_count, max: KEY_USAGE_LIMIT },
            );
        }
        let operation_id = now_seconds();
        let signature_bytes = match &self.inner {
            KeyMaterialInner::Dilithium(_) => {
                return Err(CryptoError::InvalidOperation(OperationFault::LegacyDilithiumSigning));
            },
            KeyMaterialInner::Ed25519(_) => {
                return Err(CryptoError::InvalidOperation(OperationFault::LegacyEd25519Signing));
            },
            KeyMaterialInner::MandatoryHybrid { dilithium, ed25519 } => {
                let mut combined = dilithium_sign(dilithium.secret.as_slice(), message);
                let mut classical = ed25519_sign(ed25519, message);
                combined.append(&mut classical);
                combined
            },
        };
        Ok(
            Signature {
                algorithm: self.algorithm,
                bytes: signature_bytes,
                created_at: now_seconds(),
                operation_id,
                signer_key_id: self.key_id.clone(),
            },
        )
    }
}

} // verus!

//! Deterministic key derivation from a 32-byte seed.
//!
//! The classical half is a pure function of the seed.  The post-quantum
//! half comes from the encrypted secret cache when the caller supplies a
//! blob that opens under the seed; otherwise it is generated fresh and a
//! replacement blob is returned for the caller to persist.  The operation
//! identifier is the first eight seed bytes read big-endian, a function of
//! the seed alone.

use vstd::prelude::*;

use vstd::slice::slice_subrange;

use crate::algorithm::AlgorithmVersion;
use crate::cache::{decrypt_keypair_from_cache, decrypt_outcome, encrypt_keypair_for_cache};
use crate::encoding::{
    be_u64_from_prefix, be_u64_of, chars_of_bytes, hex_bytes_of, lemma_hex_bytes_range,
    push_hex_bytes, string_from_ascii,
};
use crate::errors::CryptoError;
use crate::keys::{
    build_public_bytes, key_pair_linked, material_sound, material_wf, DilithiumKeyMaterial,
    KeyMaterialInner, PrivateKey, PublicKey,
};
use crate::primitives::{
    dilithium_generate, ed25519_key_from_seed, ed25519_public_key, ed25519_public_of,
    ed25519_secret_from_seed, now_seconds,
};

verus! {

/// What a seed derivation hands back: the key pair, and, when the cache had
/// to be (re)populated, the blob the caller should persist under the
/// derived file name.
pub struct SeedDerivation {
    pub private_key: PrivateKey,
    pub public_key: PublicKey,
    pub cache_update: Option<Vec<u8>>,
}

/// ASCII bytes of the key-identifier prefix of seed-derived keys
/// (`deterministic-hybrid-`).
pub open spec fn deterministic_key_id_prefix() -> Seq<u8> {
    seq![
        100u8,
        101u8,
        116u8,
        101u8,
        114u8,
        109u8,
        105u8,
        110u8,
        105u8,
        115u8,
        116u8,
        105u8,
        99u8,
        45u8,
        104u8,
        121u8,
        98u8,
        114u8,
        105u8,
        100u8,
        45u8,
    ]
}

/// The key-identifier text of a seed-derived key: the prefix followed by
/// the hex of the first eight seed bytes.
pub open spec fn deterministic_key_id_chars(seed: Seq<u8>) -> Seq<char> {
    chars_of_bytes(deterministic_key_id_prefix() + hex_bytes_of(seed.take(8)))
}

/// Builds the key identifier of a seed-derived key.
fn make_deterministic_key_id(seed: &[u8; 32]) -> (r: String)
    ensures
        r@ == deterministic_key_id_chars(seed@),
{
    let mut bytes: Vec<u8> = Vec::new();
    bytes.push(100);
    bytes.push(101);
    bytes.push(116);
    bytes.push(101);
    bytes.push(114);
    bytes.push(109);
    bytes.push(105);
    bytes.push(110);
    bytes.push(105);
    bytes.push(115);
    bytes.push(116);
    bytes.push(105);
    bytes.push(99);
    bytes.push(45);
    bytes.push(104);
    bytes.push(121);
    bytes.push(98);
    bytes.push(114);
    bytes.push(105);
    bytes.push(100);
    bytes.push(45);
    proof {
        assert(bytes@ =~= deterministic_key_id_prefix());
    }
    let seed_head = slice_subrange(seed.as_slice(), 0, 8);
    push_hex_bytes(seed_head, &mut bytes);
    proof {
        lemma_hex_bytes_range(seed@.take(8));
        assert forall|i: int| 0 <= i < bytes@.len() implies bytes@[i] < 128 by {
            if i >= deterministic_key_id_prefix().len() {
                assert(bytes@[i] == hex_bytes_of(seed@.take(8))[i
                    - deterministic_key_id_prefix().len()]);
            }
        }
    }
    string_from_ascii(bytes)
}

/// The post-quantum material a supplied cache blob yields under a seed, if
/// it opens and decodes.
pub open spec fn cache_hit(seed: Seq<u8>, cached: Option<Seq<u8>>) -> Option<(Seq<u8>, Seq<u8>)> {
    match cached {
        Option::Some(blob) => match decrypt_outcome(seed, blob) {
            Ok(halves) => Option::Some(halves),
            Err(_) => Option::None,
        },
        Option::None => Option::None,
    }
}

/// Everything a successful seed derivation establishes.  The classical half
/// and the provenance metadata are functions of the seed alone; the
/// post-quantum half is the cached material when the blob opens, and fresh,
/// sound material with a replacement blob otherwise.
pub open spec fn derivation_consistent(
    seed: Seq<u8>,
    cached: Option<Seq<u8>>,
    derivation: SeedDerivation,
) -> bool {
    &&& key_pair_linked(derivation.private_key, derivation.public_key)
    &&& material_wf(derivation.private_key.inner)
    &&& derivation.private_key.usage_count == 0
    &&& derivation.private_key.operation_id == be_u64_of(seed.take(8))
    &&& derivation.private_key.key_id@ == deterministic_key_id_chars(seed)
    &&& match derivation.private_key.inner {
        KeyMaterialInner::MandatoryHybrid { dilithium, ed25519 } => {
            &&& ed25519@ == ed25519_secret_from_seed(seed)
            &&& ed25519_public_of(ed25519@).len() == 32
            &&& match cache_hit(seed, cached) {
                Option::Some(halves) => {
                    &&& dilithium.public@ == halves.0
                    &&& dilithium.secret@ == halves.1
                    &&& derivation.cache_update is None
                },
                Option::None => {
                    &&& material_sound(derivation.private_key.inner)
                    &&& derivation.cache_update matches Some(blob) && decrypt_outcome(seed, blob@)
                        == Ok::<(Seq<u8>, Seq<u8>), CryptoError>(
                        (dilithium.public@, dilithium.secret@),
                    )
                },
            }
        },
        _ => false,
    }
}

/// The view of an optional byte buffer.
pub open spec fn cached_view(cached: Option<Vec<u8>>) -> Option<Seq<u8>> {
    match cached {
        Option::Some(blob) => Option::Some(blob@),
        Option::None => Option::None,
    }
}

/// Generate a deterministic keypair from a seed.
///
/// `cached` is the content of the derived cache file, when the caller found
/// one.  A blob that fails to open for any reason is treated as a miss: the
/// post-quantum half is regenerated and the returned `cache_update` blob
/// replaces the file, so a derivation succeeds for every seed and never
/// fails on a stale or corrupted cache.
pub fn generate_key_from_seed(seed: &[u8; 32], cached: Option<Vec<u8>>) -> (r: Result<
    SeedDerivation,
    CryptoError,
>)
    ensures
        r is Ok,
        r matches Ok(derivation) ==> derivation_consistent(seed@, cached_view(cached), derivation),
{
    let operation_id = be_u64_from_prefix(seed);
    let ed25519_secret = ed25519_key_from_seed(seed);
    let ed25519_public = ed25519_public_key(&ed25519_secret);

    let hit: Option<DilithiumKeyMaterial> = match cached {
        Option::Some(blob) => match decrypt_keypair_from_cache(seed, &blob) {
            Ok(material) => Option::Some(material),
            Err(_) => Option::None,
        },
        Option::None => Option::None,
    };
    let (dilithium, cache_update): (DilithiumKeyMaterial, Option<Vec<u8>>) = match hit {
        Option::Some(material) => (material, Option::None),
        Option::None => {
            let (public, secret) = dilithium_generate();
            let material = DilithiumKeyMaterial { public, secret };
            match encrypt_keypair_for_cache(seed, &material) {
                Ok(blob) => (material, Option::Some(blob)),
                Err(fault) => {
                    return Err(fault);
                },
            }
        },
    };

    let public_bytes = build_public_bytes(&dilithium.public, &ed25519_public);
    let inner = KeyMaterialInner::MandatoryHybrid { dilithium, ed25519: ed25519_secret };
    let now = now_seconds();
    let key_id = make_deterministic_key_id(seed);

    let private_key = PrivateKey {
        algorithm: AlgorithmVersion::MandatoryHybrid,
        inner,
        created_at: now,
        operation_id,
        usage_count: 0,
        key_id,
    };
    let public_key = PublicKey {
        algorithm: AlgorithmVersion::MandatoryHybrid,
        bytes: public_bytes,
        created_at: now,
        operation_id,
    };
    Ok(SeedDerivation { private_key, public_key, cache_update })
}

/// Determinism of seed derivation: when a derivation populated the cache,
/// any later derivation from the same seed that is given that blob yields
/// byte-identical public-key material and the same provenance metadata.
pub proof fn lemma_seed_derivation_deterministic(
    seed: Seq<u8>,
    first_cached: Option<Seq<u8>>,
    first: SeedDerivation,
    second: SeedDerivation,
)
    requires
        derivation_consistent(seed, first_cached, first),
        first.cache_update is Some,
        match first.cache_update {
            Option::Some(blob) => derivation_consistent(seed, Option::Some(blob@), second),
            Option::None => false,
        },
    ensures
        second.public_key.bytes@ == first.public_key.bytes@,
        second.public_key.operation_id == first.public_key.operation_id,
        second.private_key.key_id@ == first.private_key.key_id@,
        second.cache_update is None,
{
    match (first.private_key.inner, second.private_key.inner) {
        (
            KeyMaterialInner::MandatoryHybrid { dilithium: first_pq, ed25519: first_classical },
            KeyMaterialInner::MandatoryHybrid { dilithium: second_pq, ed25519: second_classical },
        ) => {
            assert(first_classical@ == second_classical@);
            assert(second_pq.public@ == first_pq.public@);
        },
        _ => {
            assert(false);
        },
    }
}

} // verus!

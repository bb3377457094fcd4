//! Address derivation: a short stable identifier for a public key, the
//! first 20 bytes of a hash over the key bytes and its provenance metadata.

use vstd::prelude::*;

use vstd::slice::{slice_subrange, slice_to_vec};

use crate::encoding::{le_bytes_of_u64, push_all, push_le_bytes_u64};
use crate::keys::PublicKey;
use crate::primitives::{sha256, sha256_of};

verus! {

/// Byte length of a derived address.
pub const ADDRESS_BYTES: usize = 20;

/// The address of a public key: the leading bytes of the digest of the key
/// bytes followed by the little-endian creation timestamp and operation
/// identifier.
pub open spec fn address_of(pk: PublicKey) -> Seq<u8> {
    sha256_of(pk.bytes@ + le_bytes_of_u64(pk.created_at) + le_bytes_of_u64(pk.operation_id)).take(
        ADDRESS_BYTES as int,
    )
}

/// Derives the address of a public key.
pub fn derive_address(public_key: &PublicKey) -> (r: Vec<u8>)
    ensures
        r@ == address_of(*public_key),
{
    let mut input: Vec<u8> = Vec::new();
    push_all(&mut input, public_key.bytes.as_slice());
    push_le_bytes_u64(public_key.created_at, &mut input);
    push_le_bytes_u64(public_key.operation_id, &mut input);
    let digest = sha256(input.as_slice());
    slice_to_vec(slice_subrange(digest.as_slice(), 0, ADDRESS_BYTES))
}

} // verus!

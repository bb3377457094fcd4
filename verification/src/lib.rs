//! Hybrid signature engine: every signature pairs a post-quantum lattice
//! signature with a classical elliptic-curve signature over the same message,
//! and verification demands that both halves pass.  Legacy single-algorithm
//! keys are permanently rejected.  Key pairs can be re-derived
//! deterministically from a 32-byte seed, with the expensive post-quantum
//! secret kept in an encrypted, authenticated cache blob.

pub mod address;
pub mod algorithm;
pub mod cache;
pub mod encoding;
pub mod errors;
pub mod keys;
pub mod primitives;
pub mod seed;
pub mod witness;
pub mod verification;

pub use algorithm::{AlgorithmVersion, KeyType};
pub use cache::{
    decrypt_keypair_from_cache, derive_encryption_key, encrypt_keypair_for_cache,
    generate_secure_filename, validate_encrypted_file_path,
};
pub use errors::{CacheFault, CryptoError, KeyFault, OperationFault, VerifyFault};
pub use keys::{DilithiumKeyMaterial, KeyMaterialInner, PrivateKey, PublicKey, Signature};
pub use primitives::secure_random_bytes;
pub use seed::{generate_key_from_seed, SeedDerivation};
pub use witness::generate_witness_bound_key;

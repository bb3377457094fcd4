//! Error taxonomy.  Every failure is a closed enumeration of kinds with
//! structured context fields; callers match on variants, never on text.

use vstd::prelude::*;

use crate::algorithm::AlgorithmVersion;

verus! {

/// Why a key was rejected before any cryptographic call.
#[derive(Debug, Clone, Copy, PartialEq, Eq, Structural)]
pub enum KeyFault {
    /// Key material carries the disabled pure post-quantum scheme.
    LegacyDilithiumMaterial,
    /// Key material carries the disabled pure classical scheme.
    LegacyEd25519Material,
    /// Stored public-key bytes are shorter than the two fixed segments.
    HybridKeyTooShort,
    /// The classical public-key segment does not decode to a valid key.
    ClassicalKeyDecode,
}

/// Why signature verification failed; the two cryptographic halves are
/// reported distinctly so audits can tell which one rejected.
#[derive(Debug, Clone, Copy, PartialEq, Eq, Structural)]
pub enum VerifyFault {
    /// Stored signature bytes are shorter than the two fixed segments.
    HybridSignatureTooShort,
    /// The post-quantum half did not verify.
    PostQuantumRejected,
    /// The classical half did not verify.
    ClassicalRejected,
}

/// Why an operation was refused by validation or policy.
#[derive(Debug, Clone, Copy, PartialEq, Eq, Structural)]
pub enum OperationFault {
    /// Empty messages are never signed.
    EmptyMessage,
    /// Messages above the fixed size limit are never signed.
    MessageTooLarge,
    /// Signing with pure post-quantum material is forbidden.
    LegacyDilithiumSigning,
    /// Signing with pure classical material is forbidden.
    LegacyEd25519Signing,
    /// Verifying under the pure post-quantum tag is forbidden.
    LegacyDilithiumVerification,
    /// Verifying under the pure classical tag is forbidden.
    LegacyEd25519Verification,
    /// A derived cache file name failed the single-segment path check.
    UnsafeCachePath,
    /// The external attestation of a policy commitment was rejected.
    WitnessCommitmentRejected,
}

/// Why the encrypted secret cache failed.
#[derive(Debug, Clone, Copy, PartialEq, Eq, Structural)]
pub enum CacheFault {
    /// The cache file could not be read.
    ReadFailed,
    /// The cache file could not be written.
    WriteFailed,
    /// The file is shorter than the fixed nonce prefix.
    FileTooShort,
    /// Sealing the payload failed.
    EncryptionFailed,
    /// Authenticated decryption rejected the file (wrong key, corruption or
    /// tampering); nothing of the payload is trusted.
    DecryptionFailed,
    /// The decrypted payload does not have the two fixed key widths.
    PayloadLengthMismatch,
}

/// Cryptographic error kinds.
#[derive(Debug, Clone, Copy, PartialEq, Eq, Structural)]
pub enum CryptoError {
    InsufficientGuardianApproval,
    InvalidEphemeralTTL,
    ExpiredEphemeralKey,
    /// The operating-system entropy source failed; fatal, never substituted.
    KeyGeneration,
    InvalidKey(KeyFault),
    SignatureVerification(VerifyFault),
    UnsupportedAlgorithm(AlgorithmVersion),
    InvalidOperation(OperationFault),
    AuditFailure,
    CacheFailure(CacheFault),
    KeyUsageExceeded { count: u64, max: u64 },
    SideChannelAttack,
    TimingAttack { duration_ms: u64, expected_ms: u64 },
}

} // verus!

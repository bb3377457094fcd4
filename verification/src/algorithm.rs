//! Algorithm policy: the one live scheme and the two permanently disabled
//! legacy schemes.

use vstd::prelude::*;

verus! {

/// Cryptographic key types.
#[derive(Debug, Clone, Copy, PartialEq, Eq, Structural)]
pub enum KeyType {
    Signing,
    Encryption,
}

/// Algorithm versions.  The two single-algorithm variants are kept in the
/// type so that old tags can still be named, but every operation rejects
/// them: only `MandatoryHybrid` is live, and no configuration can re-enable
/// the others.
#[derive(Debug, Clone, Copy, PartialEq, Eq, Structural)]
pub enum AlgorithmVersion {
    Dilithium3V1,
    Ed25519V1,
    MandatoryHybrid,
}

/// The policy decision: operations may proceed only under the live hybrid
/// scheme.
pub open spec fn algorithm_allowed(algorithm: AlgorithmVersion) -> bool {
    algorithm is MandatoryHybrid
}

impl AlgorithmVersion {
    /// Executable form of the policy decision.
    pub fn is_allowed(&self) -> (r: bool)
        ensures
            r == algorithm_allowed(*self),
    {
        match self {
            AlgorithmVersion::MandatoryHybrid => true,
            AlgorithmVersion::Dilithium3V1 => false,
            AlgorithmVersion::Ed25519V1 => false,
        }
    }
}

} // verus!

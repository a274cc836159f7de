use vstd::prelude::*;

verus! {

/// A SHA-256 digest, as raw bytes.
pub type Sha256Hash = [u8; 32];

/// The bytes a block carries.
pub type PayloadContent = Vec<u8>;

/// Why a block could not be mined or appended.
#[derive(Debug, Clone, Copy, PartialEq, Eq, Structural)]
pub enum MiningError {
    /// Every nonce below the search bound was tried and none met the target.
    Iteration,
    /// The chain has no block to link a new one to.
    NoParent,
}

} // verus!

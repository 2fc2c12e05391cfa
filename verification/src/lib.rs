//! Privacy-preserving commitment ledger: commit-reveal voting, stealth
//! multisig approval, time-locked identity recovery, and a note-based
//! shielded value pool with Merkle-tree and nullifier bookkeeping.

use vstd::prelude::*;

pub mod bytes;
pub mod errors;
pub mod field;
pub mod hash;
pub mod identity;
pub mod multisig;
pub mod pool;
pub mod proofs;
pub mod staking;
pub mod voting;

verus! {

/// Maximum number of signers for a multisig vault.
pub const MAX_MULTISIG_SIGNERS: usize = 10;

/// Maximum number of votes per proposal.
pub const MAX_VOTES_PER_PROPOSAL: usize = 100;

/// Maximum number of notes in the shielded pool Merkle tree.
pub const MAX_SHIELDED_NOTES: usize = 256;

/// Merkle tree depth for the shielded pool.
pub const MERKLE_TREE_DEPTH: usize = 8;

} // verus!

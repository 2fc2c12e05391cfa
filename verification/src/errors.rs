//! The typed errors: every operation either succeeds or fails with one of
//! these and leaves all state unchanged.

use vstd::prelude::*;

verus! {

/// Every failure an operation can surface. Each operation's contract says
/// exactly which inputs produce which variant.
#[derive(Clone, Copy, Debug, PartialEq, Eq, Structural)]
pub enum ErrorCode {
    /// Invalid proof provided.
    InvalidProof,
    /// Recovery is already active.
    RecoveryAlreadyActive,
    /// No active recovery to execute or cancel.
    NoActiveRecovery,
    /// Timelock period has not expired yet.
    TimelockNotExpired,
    /// Invalid timelock period (must be 1-90 days).
    InvalidTimelockPeriod,
    /// Unauthorized: only owner can perform this action.
    Unauthorized,
    /// Invalid voting period.
    InvalidVotingPeriod,
    /// Invalid reveal period.
    InvalidRevealPeriod,
    /// Voting period has ended.
    VotingEnded,
    /// Already voted on this proposal.
    AlreadyVoted,
    /// Voting period has not ended yet.
    VotingNotEnded,
    /// Reveal period has ended.
    RevealEnded,
    /// Not voted on this proposal.
    NotVoted,
    /// Already revealed vote.
    AlreadyRevealed,
    /// Invalid vote reveal - commitment mismatch.
    InvalidVoteReveal,
    /// Reveal period has not ended yet.
    RevealNotEnded,
    /// Proposal already finalized.
    AlreadyFinalized,
    /// Invalid threshold.
    InvalidThreshold,
    /// Too many signers.
    TooManySigners,
    /// Proposal already executed.
    ProposalAlreadyExecuted,
    /// Threshold already reached.
    ThresholdReached,
    /// Invalid signer proof.
    InvalidSignerProof,
    /// Duplicate approval.
    DuplicateApproval,
    /// Insufficient approvals to execute.
    InsufficientApprovals,
    /// Stake amount too small.
    StakeTooSmall,
    /// Invalid reward rate.
    InvalidRewardRate,
    /// Invalid lockup period (must be 1-52 epochs).
    InvalidLockupPeriod,
    /// Stake pool is not active.
    PoolNotActive,
    /// Stake is not active.
    StakeNotActive,
    /// Stake is still locked.
    StakeLocked,
    /// Invalid stake reveal - commitment mismatch.
    InvalidStakeReveal,
    /// Invalid reward proof.
    InvalidRewardProof,
    /// Insufficient pool funds.
    InsufficientPoolFunds,
    /// Invalid proof structure - expected Groth16 format.
    InvalidProofStructure,
    /// Invalid proof point - not a valid field element.
    InvalidProofPoint,
    /// Invalid public signal - not a valid field element.
    InvalidPublicSignal,
    /// Commitment mismatch - proof is not for this wallet.
    CommitmentMismatch,
    /// Invalid proof hash.
    InvalidProofHash,
    /// Shielded pool is full.
    PoolFull,
    /// Invalid range proof - amount out of valid range.
    InvalidRangeProof,
    /// Nullifier has already been used - double-spend attempt.
    NullifierAlreadyUsed,
    /// Invalid Merkle proof - note not in tree.
    InvalidMerkleProof,
    /// Invalid withdrawal proof.
    InvalidWithdrawalProof,
    /// Invalid nullifier derivation.
    InvalidNullifier,
}

} // verus!

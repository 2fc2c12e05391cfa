//! Commit-reveal voting: per-proposal phases
//! `Commit [created_at, voting_ends_at)` then
//! `Reveal [voting_ends_at, reveal_ends_at)` then `Finalized`, with a
//! hidden choice committed as `H(choice ‖ secret ‖ voter)` and revealed
//! against that commitment.

use vstd::prelude::*;
use crate::bytes::bytes32_eq;
use crate::errors::ErrorCode;
use crate::hash::{compute_vote_commitment, spec_vote_commitment};

verus! {

/// A voting proposal with its tallies.
#[derive(Clone, Debug)]
pub struct Proposal {
    /// Unique proposal identifier.
    pub proposal_id: [u8; 32],
    /// Creator of the proposal.
    pub creator: [u8; 32],
    /// Hash of proposal metadata (stored off the ledger).
    pub metadata_hash: [u8; 32],
    /// When the proposal was created.
    pub created_at: i64,
    /// When the commit phase ends.
    pub voting_ends_at: i64,
    /// When the reveal phase ends.
    pub reveal_ends_at: i64,
    /// Number of yes votes (after reveal).
    pub yes_count: u32,
    /// Number of no votes (after reveal).
    pub no_count: u32,
    /// Total vote commitments received.
    pub total_commitments: u32,
    /// Total votes revealed.
    pub total_revealed: u32,
    /// Whether the proposal has been finalized.
    pub is_finalized: bool,
}

/// One voter's commit-reveal record for one proposal.
#[derive(Clone, Debug)]
pub struct VoteRecord {
    /// The proposal this vote is for.
    pub proposal: [u8; 32],
    /// The voter.
    pub voter: [u8; 32],
    /// The vote commitment `H(choice ‖ secret ‖ voter)`.
    pub commitment: [u8; 32],
    /// Whether a vote has been cast.
    pub has_voted: bool,
    /// Whether the vote has been revealed.
    pub has_revealed: bool,
    /// The revealed choice (meaningful only once revealed).
    pub revealed_choice: bool,
    /// When the vote was cast.
    pub voted_at: i64,
    /// When the vote was revealed.
    pub revealed_at: i64,
}

impl VoteRecord {
    /// A zeroed record, as the storage collaborator hands a freshly
    /// created one to `cast_vote`.
    pub fn zeroed() -> (r: VoteRecord)
        ensures
            !r.has_voted,
            !r.has_revealed,
            !r.revealed_choice,
            r.proposal@ == crate::bytes::zero32(),
            r.voter@ == crate::bytes::zero32(),
            r.commitment@ == crate::bytes::zero32(),
            r.voted_at == 0,
            r.revealed_at == 0,
    {
        let r = VoteRecord {
            proposal: [0u8; 32],
            voter: [0u8; 32],
            commitment: [0u8; 32],
            has_voted: false,
            has_revealed: false,
            revealed_choice: false,
            voted_at: 0,
            revealed_at: 0,
        };
        proof {
            assert(r.proposal@ =~= crate::bytes::zero32());
        }
        r
    }
}

/// Event: a proposal was created.
#[derive(Clone, Debug)]
pub struct ProposalCreated {
    pub proposal: [u8; 32],
    pub proposal_id: [u8; 32],
    pub creator: [u8; 32],
    pub voting_ends_at: i64,
    pub reveal_ends_at: i64,
}

/// Event: a vote commitment was cast.
#[derive(Clone, Debug)]
pub struct VoteCast {
    pub proposal: [u8; 32],
    pub voter: [u8; 32],
    pub commitment: [u8; 32],
    pub timestamp: i64,
}

/// Event: a vote was revealed. The choice is deliberately not carried:
/// individual votes stay private even after reveal.
#[derive(Clone, Debug)]
pub struct VoteRevealed {
    pub proposal: [u8; 32],
    pub voter: [u8; 32],
    pub timestamp: i64,
}

/// Event: a proposal was finalized with its frozen tallies.
#[derive(Clone, Debug)]
pub struct ProposalFinalized {
    pub proposal: [u8; 32],
    pub yes_count: u32,
    pub no_count: u32,
    pub total_votes: u32,
    pub timestamp: i64,
}

/// The proposal tally invariant: revealed votes split exactly into yes
/// and no, and never exceed the commitments received.
pub open spec fn tally_invariant(p: Proposal) -> bool {
    &&& p.yes_count + p.no_count == p.total_revealed
    &&& p.total_revealed <= p.total_commitments
}

/// The error, if any, that `create_proposal` surfaces for these inputs.
pub open spec fn create_proposal_err(
    voting_ends_at: i64,
    reveal_ends_at: i64,
    now: i64,
) -> Option<ErrorCode> {
    if voting_ends_at <= now {
        Some(ErrorCode::InvalidVotingPeriod)
    } else if reveal_ends_at <= voting_ends_at {
        Some(ErrorCode::InvalidRevealPeriod)
    } else {
        None
    }
}

/// Create a proposal: the voting deadline must lie in the future and the
/// reveal deadline after it. Tallies start at zero.
pub fn create_proposal(
    proposal_key: [u8; 32],
    creator: [u8; 32],
    proposal_id: [u8; 32],
    metadata_hash: [u8; 32],
    voting_ends_at: i64,
    reveal_ends_at: i64,
    now: i64,
) -> (r: Result<(Proposal, ProposalCreated), ErrorCode>)
    ensures
        match r {
            Ok(pr) => {
                &&& create_proposal_err(voting_ends_at, reveal_ends_at, now) is None
                &&& pr.0.proposal_id == proposal_id
                &&& pr.0.creator == creator
                &&& pr.0.metadata_hash == metadata_hash
                &&& pr.0.created_at == now
                &&& pr.0.voting_ends_at == voting_ends_at
                &&& pr.0.reveal_ends_at == reveal_ends_at
                &&& pr.0.yes_count == 0
                &&& pr.0.no_count == 0
                &&& pr.0.total_commitments == 0
                &&& pr.0.total_revealed == 0
                &&& !pr.0.is_finalized
                &&& tally_invariant(pr.0)
                &&& pr.1.proposal == proposal_key
                &&& pr.1.proposal_id == proposal_id
                &&& pr.1.creator == creator
                &&& pr.1.voting_ends_at == voting_ends_at
                &&& pr.1.reveal_ends_at == reveal_ends_at
            },
            Err(e) => create_proposal_err(voting_ends_at, reveal_ends_at, now) == Some(e),
        },
{
    if voting_ends_at <= now {
        return Err(ErrorCode::InvalidVotingPeriod);
    }
    if reveal_ends_at <= voting_ends_at {
        return Err(ErrorCode::InvalidRevealPeriod);
    }
    let proposal = Proposal {
        proposal_id,
        creator,
        metadata_hash,
        created_at: now,
        voting_ends_at,
        reveal_ends_at,
        yes_count: 0,
        no_count: 0,
        total_commitments: 0,
        total_revealed: 0,
        is_finalized: false,
    };
    let event = ProposalCreated {
        proposal: proposal_key,
        proposal_id,
        creator,
        voting_ends_at,
        reveal_ends_at,
    };
    Ok((proposal, event))
}

/// The error, if any, that `cast_vote` surfaces for these inputs.
pub open spec fn cast_vote_err(p: Proposal, record: VoteRecord, now: i64) -> Option<ErrorCode> {
    if now >= p.voting_ends_at {
        Some(ErrorCode::VotingEnded)
    } else if record.has_voted {
        Some(ErrorCode::AlreadyVoted)
    } else {
        None
    }
}

/// Cast a vote commitment during the commit phase. The record must not
/// already hold a vote; one record exists per `(proposal, voter)` pair,
/// created exclusively by the storage collaborator.
pub fn cast_vote(
    proposal: &mut Proposal,
    vote_record: &mut VoteRecord,
    proposal_key: [u8; 32],
    voter: [u8; 32],
    vote_commitment: [u8; 32],
    now: i64,
) -> (r: Result<VoteCast, ErrorCode>)
    requires
        tally_invariant(*old(proposal)),
        old(proposal).total_commitments < u32::MAX,
    ensures
        tally_invariant(*final(proposal)),
        match r {
            Ok(ev) => {
                &&& cast_vote_err(*old(proposal), *old(vote_record), now) is None
                &&& final(vote_record).proposal == proposal_key
                &&& final(vote_record).voter == voter
                &&& final(vote_record).commitment == vote_commitment
                &&& final(vote_record).has_voted
                &&& !final(vote_record).has_revealed
                &&& final(vote_record).voted_at == now
                &&& final(vote_record).revealed_choice == old(vote_record).revealed_choice
                &&& final(vote_record).revealed_at == old(vote_record).revealed_at
                &&& final(proposal).total_commitments == old(proposal).total_commitments + 1
                &&& final(proposal).yes_count == old(proposal).yes_count
                &&& final(proposal).no_count == old(proposal).no_count
                &&& final(proposal).total_revealed == old(proposal).total_revealed
                &&& final(proposal).is_finalized == old(proposal).is_finalized
                &&& final(proposal).proposal_id == old(proposal).proposal_id
                &&& final(proposal).creator == old(proposal).creator
                &&& final(proposal).metadata_hash == old(proposal).metadata_hash
                &&& final(proposal).created_at == old(proposal).created_at
                &&& final(proposal).voting_ends_at == old(proposal).voting_ends_at
                &&& final(proposal).reveal_ends_at == old(proposal).reveal_ends_at
                &&& ev.proposal == proposal_key
                &&& ev.voter == voter
                &&& ev.commitment == vote_commitment
                &&& ev.timestamp == now
            },
            Err(e) => {
                &&& cast_vote_err(*old(proposal), *old(vote_record), now) == Some(e)
                &&& *final(proposal) == *old(proposal)
                &&& *final(vote_record) == *old(vote_record)
            },
        },
{
    if now >= proposal.voting_ends_at {
        return Err(ErrorCode::VotingEnded);
    }
    if vote_record.has_voted {
        return Err(ErrorCode::AlreadyVoted);
    }
    vote_record.proposal = proposal_key;
    vote_record.voter = voter;
    vote_record.commitment = vote_commitment;
    vote_record.has_voted = true;
    vote_record.has_revealed = false;
    vote_record.voted_at = now;
    proposal.total_commitments = proposal.total_commitments + 1;
    Ok(VoteCast { proposal: proposal_key, voter, commitment: vote_commitment, timestamp: now })
}

/// The error, if any, that `reveal_vote` surfaces for these inputs.
/// The reveal succeeds exactly when the phase and record state allow it
/// and `H(choice ‖ secret ‖ voter)` equals the stored commitment.
pub open spec fn reveal_vote_err(
    p: Proposal,
    record: VoteRecord,
    voter: Seq<u8>,
    vote_choice: bool,
    secret: Seq<u8>,
    now: i64,
) -> Option<ErrorCode> {
    if record.voter@ != voter {
        Some(ErrorCode::Unauthorized)
    } else if now < p.voting_ends_at {
        Some(ErrorCode::VotingNotEnded)
    } else if now >= p.reveal_ends_at {
        Some(ErrorCode::RevealEnded)
    } else if !record.has_voted {
        Some(ErrorCode::NotVoted)
    } else if record.has_revealed {
        Some(ErrorCode::AlreadyRevealed)
    } else if record.commitment@ != spec_vote_commitment(vote_choice, secret, voter) {
        Some(ErrorCode::InvalidVoteReveal)
    } else {
        None
    }
}

/// Reveal a vote during the reveal phase: the choice and secret must hash
/// to the stored commitment; the tallies are updated once. Every reveal
/// answers a distinct earlier commitment, so fewer votes are revealed
/// than committed when a reveal is still owed.
pub fn reveal_vote(
    proposal: &mut Proposal,
    vote_record: &mut VoteRecord,
    proposal_key: [u8; 32],
    voter: [u8; 32],
    vote_choice: bool,
    secret: [u8; 32],
    now: i64,
) -> (r: Result<VoteRevealed, ErrorCode>)
    requires
        tally_invariant(*old(proposal)),
        old(proposal).total_revealed < old(proposal).total_commitments,
    ensures
        tally_invariant(*final(proposal)),
        match r {
            Ok(ev) => {
                &&& reveal_vote_err(
                    *old(proposal),
                    *old(vote_record),
                    voter@,
                    vote_choice,
                    secret@,
                    now,
                ) is None
                &&& final(vote_record).has_revealed
                &&& final(vote_record).revealed_choice == vote_choice
                &&& final(vote_record).revealed_at == now
                &&& final(vote_record).proposal == old(vote_record).proposal
                &&& final(vote_record).voter == old(vote_record).voter
                &&& final(vote_record).commitment == old(vote_record).commitment
                &&& final(vote_record).has_voted == old(vote_record).has_voted
                &&& final(vote_record).voted_at == old(vote_record).voted_at
                &&& final(proposal).total_revealed == old(proposal).total_revealed + 1
                &&& final(proposal).yes_count == old(proposal).yes_count + (
                if vote_choice {
                    1int
                } else {
                    0int
                })
                &&& final(proposal).no_count == old(proposal).no_count + (
                if vote_choice {
                    0int
                } else {
                    1int
                })
                &&& final(proposal).total_commitments == old(proposal).total_commitments
                &&& final(proposal).is_finalized == old(proposal).is_finalized
                &&& final(proposal).proposal_id == old(proposal).proposal_id
                &&& final(proposal).creator == old(proposal).creator
                &&& final(proposal).metadata_hash == old(proposal).metadata_hash
                &&& final(proposal).created_at == old(proposal).created_at
                &&& final(proposal).voting_ends_at == old(proposal).voting_ends_at
                &&& final(proposal).reveal_ends_at == old(proposal).reveal_ends_at
                &&& ev.proposal == proposal_key
                &&& ev.voter == voter
                &&& ev.timestamp == now
            },
            Err(e) => {
                &&& reveal_vote_err(
                    *old(proposal),
                    *old(vote_record),
                    voter@,
                    vote_choice,
                    secret@,
                    now,
                ) == Some(e)
                &&& *final(proposal) == *old(proposal)
                &&& *final(vote_record) == *old(vote_record)
            },
        },
{
    if !bytes32_eq(&vote_record.voter, &voter) {
        return Err(ErrorCode::Unauthorized);
    }
    if now < proposal.voting_ends_at {
        return Err(ErrorCode::VotingNotEnded);
    }
    if now >= proposal.reveal_ends_at {
        return Err(ErrorCode::RevealEnded);
    }
    if !vote_record.has_voted {
        return Err(ErrorCode::NotVoted);
    }
    if vote_record.has_revealed {
        return Err(ErrorCode::AlreadyRevealed);
    }
    let expected_commitment = compute_vote_commitment(vote_choice, &secret, &voter);
    if !bytes32_eq(&vote_record.commitment, &expected_commitment) {
        return Err(ErrorCode::InvalidVoteReveal);
    }
    vote_record.has_revealed = true;
    vote_record.revealed_choice = vote_choice;
    vote_record.revealed_at = now;
    proposal.total_revealed = proposal.total_revealed + 1;
    if vote_choice {
        proposal.yes_count = proposal.yes_count + 1;
    } else {
        proposal.no_count = proposal.no_count + 1;
    }
    Ok(VoteRevealed { proposal: proposal_key, voter, timestamp: now })
}

/// The error, if any, that `finalize_proposal` surfaces for these inputs.
pub open spec fn finalize_proposal_err(p: Proposal, now: i64) -> Option<ErrorCode> {
    if now < p.reveal_ends_at {
        Some(ErrorCode::RevealNotEnded)
    } else if p.is_finalized {
        Some(ErrorCode::AlreadyFinalized)
    } else {
        None
    }
}

/// Finalize a proposal once its reveal phase has ended: freezes the
/// tallies; a second call fails.
pub fn finalize_proposal(proposal: &mut Proposal, proposal_key: [u8; 32], now: i64) -> (r: Result<
    ProposalFinalized,
    ErrorCode,
>)
    requires
        tally_invariant(*old(proposal)),
    ensures
        tally_invariant(*final(proposal)),
        match r {
            Ok(ev) => {
                &&& finalize_proposal_err(*old(proposal), now) is None
                &&& final(proposal).is_finalized
                &&& final(proposal).yes_count == old(proposal).yes_count
                &&& final(proposal).no_count == old(proposal).no_count
                &&& final(proposal).total_commitments == old(proposal).total_commitments
                &&& final(proposal).total_revealed == old(proposal).total_revealed
                &&& final(proposal).proposal_id == old(proposal).proposal_id
                &&& final(proposal).creator == old(proposal).creator
                &&& final(proposal).metadata_hash == old(proposal).metadata_hash
                &&& final(proposal).created_at == old(proposal).created_at
                &&& final(proposal).voting_ends_at == old(proposal).voting_ends_at
                &&& final(proposal).reveal_ends_at == old(proposal).reveal_ends_at
                &&& ev.proposal == proposal_key
                &&& ev.yes_count == old(proposal).yes_count
                &&& ev.no_count == old(proposal).no_count
                &&& ev.total_votes == old(proposal).total_revealed
                &&& ev.timestamp == now
            },
            Err(e) => {
                &&& finalize_proposal_err(*old(proposal), now) == Some(e)
                &&& *final(proposal) == *old(proposal)
            },
        },
{
    if now < proposal.reveal_ends_at {
        return Err(ErrorCode::RevealNotEnded);
    }
    if proposal.is_finalized {
        return Err(ErrorCode::AlreadyFinalized);
    }
    proposal.is_finalized = true;
    Ok(
        ProposalFinalized {
            proposal: proposal_key,
            yes_count: proposal.yes_count,
            no_count: proposal.no_count,
            total_votes: proposal.total_revealed,
            timestamp: now,
        },
    )
}

} // verus!

use veil_protocol::errors::ErrorCode;
use veil_protocol::hash::compute_vote_commitment;
use veil_protocol::voting::{
    cast_vote, create_proposal, finalize_proposal, reveal_vote, VoteRecord,
};

const PROPOSAL_KEY: [u8; 32] = [0xA1u8; 32];
const CREATOR: [u8; 32] = [0xA2u8; 32];
const VOTER: [u8; 32] = [0xA3u8; 32];
const SECRET: [u8; 32] = [0xA4u8; 32];

#[test]
fn commit_reveal_scenario() {
    // Create a proposal with voting ending at T+100 and reveal at T+200;
    // cast at T+10; revealing at T+50 fails, revealing at T+150 with the
    // right choice and secret succeeds and the tallies update.
    let t: i64 = 1000;
    let (mut proposal, _) = create_proposal(
        PROPOSAL_KEY,
        CREATOR,
        [0x01u8; 32],
        [0x02u8; 32],
        t + 100,
        t + 200,
        t,
    )
    .unwrap();

    let commitment = compute_vote_commitment(true, &SECRET, &VOTER);
    let mut record = VoteRecord::zeroed();
    cast_vote(&mut proposal, &mut record, PROPOSAL_KEY, VOTER, commitment, t + 10).unwrap();
    assert_eq!(proposal.total_commitments, 1);
    assert!(record.has_voted);

    let early = reveal_vote(&mut proposal, &mut record, PROPOSAL_KEY, VOTER, true, SECRET, t + 50);
    assert_eq!(early.unwrap_err(), ErrorCode::VotingNotEnded);
    assert_eq!(proposal.total_revealed, 0);

    reveal_vote(&mut proposal, &mut record, PROPOSAL_KEY, VOTER, true, SECRET, t + 150).unwrap();
    assert_eq!(proposal.yes_count, 1);
    assert_eq!(proposal.no_count, 0);
    assert_eq!(proposal.total_revealed, 1);
    assert!(record.has_revealed);
    assert!(record.revealed_choice);
}

#[test]
fn reveal_rejects_mismatched_choice_or_secret() {
    let t: i64 = 1000;
    let (mut proposal, _) = create_proposal(
        PROPOSAL_KEY,
        CREATOR,
        [0x01u8; 32],
        [0x02u8; 32],
        t + 100,
        t + 200,
        t,
    )
    .unwrap();
    let commitment = compute_vote_commitment(true, &SECRET, &VOTER);
    let mut record = VoteRecord::zeroed();
    cast_vote(&mut proposal, &mut record, PROPOSAL_KEY, VOTER, commitment, t + 10).unwrap();

    // Wrong choice.
    let r = reveal_vote(&mut proposal, &mut record, PROPOSAL_KEY, VOTER, false, SECRET, t + 150);
    assert_eq!(r.unwrap_err(), ErrorCode::InvalidVoteReveal);
    // Wrong secret.
    let r =
        reveal_vote(&mut proposal, &mut record, PROPOSAL_KEY, VOTER, true, [0x99u8; 32], t + 150);
    assert_eq!(r.unwrap_err(), ErrorCode::InvalidVoteReveal);
    assert_eq!(proposal.total_revealed, 0);
    // The right pair still succeeds afterwards.
    reveal_vote(&mut proposal, &mut record, PROPOSAL_KEY, VOTER, true, SECRET, t + 150).unwrap();
    // And revealing twice fails.
    let r = reveal_vote(&mut proposal, &mut record, PROPOSAL_KEY, VOTER, true, SECRET, t + 151);
    assert_eq!(r.unwrap_err(), ErrorCode::AlreadyRevealed);
}

#[test]
fn create_proposal_rejects_bad_periods() {
    let r = create_proposal(PROPOSAL_KEY, CREATOR, [0x01u8; 32], [0x02u8; 32], 900, 1200, 1000);
    assert_eq!(r.unwrap_err(), ErrorCode::InvalidVotingPeriod);
    let r = create_proposal(PROPOSAL_KEY, CREATOR, [0x01u8; 32], [0x02u8; 32], 1100, 1100, 1000);
    assert_eq!(r.unwrap_err(), ErrorCode::InvalidRevealPeriod);
}

#[test]
fn cast_vote_rejects_late_and_double_votes() {
    let t: i64 = 1000;
    let (mut proposal, _) = create_proposal(
        PROPOSAL_KEY,
        CREATOR,
        [0x01u8; 32],
        [0x02u8; 32],
        t + 100,
        t + 200,
        t,
    )
    .unwrap();
    let commitment = compute_vote_commitment(true, &SECRET, &VOTER);
    let mut record = VoteRecord::zeroed();
    let r = cast_vote(&mut proposal, &mut record, PROPOSAL_KEY, VOTER, commitment, t + 100);
    assert_eq!(r.unwrap_err(), ErrorCode::VotingEnded);
    cast_vote(&mut proposal, &mut record, PROPOSAL_KEY, VOTER, commitment, t + 10).unwrap();
    let r = cast_vote(&mut proposal, &mut record, PROPOSAL_KEY, VOTER, commitment, t + 20);
    assert_eq!(r.unwrap_err(), ErrorCode::AlreadyVoted);
    assert_eq!(proposal.total_commitments, 1);
}

#[test]
fn reveal_rejects_unvoted_record_and_late_reveal() {
    let t: i64 = 1000;
    let (mut proposal, _) = create_proposal(
        PROPOSAL_KEY,
        CREATOR,
        [0x01u8; 32],
        [0x02u8; 32],
        t + 100,
        t + 200,
        t,
    )
    .unwrap();
    // One commitment exists so a reveal is owed.
    let other_voter = [0xA5u8; 32];
    let mut other_record = VoteRecord::zeroed();
    let c = compute_vote_commitment(true, &SECRET, &other_voter);
    cast_vote(&mut proposal, &mut other_record, PROPOSAL_KEY, other_voter, c, t + 10).unwrap();

    let mut record = VoteRecord::zeroed();
    record.voter = VOTER;
    let r = reveal_vote(&mut proposal, &mut record, PROPOSAL_KEY, VOTER, true, SECRET, t + 150);
    assert_eq!(r.unwrap_err(), ErrorCode::NotVoted);
    let r = reveal_vote(
        &mut proposal,
        &mut other_record,
        PROPOSAL_KEY,
        other_voter,
        true,
        SECRET,
        t + 200,
    );
    assert_eq!(r.unwrap_err(), ErrorCode::RevealEnded);
    // A reveal under the wrong voter identity is refused.
    let r = reveal_vote(
        &mut proposal,
        &mut other_record,
        PROPOSAL_KEY,
        VOTER,
        true,
        SECRET,
        t + 150,
    );
    assert_eq!(r.unwrap_err(), ErrorCode::Unauthorized);
}

#[test]
fn finalize_freezes_once() {
    let t: i64 = 1000;
    let (mut proposal, _) = create_proposal(
        PROPOSAL_KEY,
        CREATOR,
        [0x01u8; 32],
        [0x02u8; 32],
        t + 100,
        t + 200,
        t,
    )
    .unwrap();
    let r = finalize_proposal(&mut proposal, PROPOSAL_KEY, t + 150);
    assert_eq!(r.unwrap_err(), ErrorCode::RevealNotEnded);
    let ev = finalize_proposal(&mut proposal, PROPOSAL_KEY, t + 200).unwrap();
    assert_eq!(ev.yes_count, 0);
    assert_eq!(ev.total_votes, 0);
    assert!(proposal.is_finalized);
    let r = finalize_proposal(&mut proposal, PROPOSAL_KEY, t + 201);
    assert_eq!(r.unwrap_err(), ErrorCode::AlreadyFinalized);
}

#[test]
fn tallies_split_exactly_into_yes_and_no() {
    let t: i64 = 1000;
    let (mut proposal, _) = create_proposal(
        PROPOSAL_KEY,
        CREATOR,
        [0x01u8; 32],
        [0x02u8; 32],
        t + 100,
        t + 200,
        t,
    )
    .unwrap();
    let voters: [[u8; 32]; 3] = [[0xB1u8; 32], [0xB2u8; 32], [0xB3u8; 32]];
    let choices = [true, false, true];
    let mut records = Vec::new();
    for (voter, choice) in voters.iter().zip(choices.iter()) {
        let commitment = compute_vote_commitment(*choice, &SECRET, voter);
        let mut record = VoteRecord::zeroed();
        cast_vote(&mut proposal, &mut record, PROPOSAL_KEY, *voter, commitment, t + 10).unwrap();
        records.push(record);
    }
    assert_eq!(proposal.total_commitments, 3);
    for ((voter, choice), record) in voters.iter().zip(choices.iter()).zip(records.iter_mut()) {
        reveal_vote(&mut proposal, record, PROPOSAL_KEY, *voter, *choice, SECRET, t + 150)
            .unwrap();
        assert_eq!(
            proposal.yes_count + proposal.no_count,
            proposal.total_revealed,
            "tally invariant"
        );
        assert!(proposal.total_revealed <= proposal.total_commitments);
    }
    assert_eq!(proposal.yes_count, 2);
    assert_eq!(proposal.no_count, 1);
    assert_eq!(proposal.total_revealed, 3);
}

//! Commitment-based staking, the precursor of the shielded pool: stakes
//! are recorded as commitments, consumed through nullifier-derivation
//! proofs, with rewards claimed against hash-validated proofs.

use vstd::prelude::*;
use crate::bytes::push_bytes;
use crate::errors::ErrorCode;
use crate::hash::{keccak_of, keccak256};
use crate::proofs::{
    compute_reward_commitment,
    spec_nullifier_derivation_ok,
    spec_reward_claim_proof_ok,
    spec_reward_commitment,
    verify_nullifier_derivation,
    verify_reward_claim_proof,
};

verus! {

/// A stake pool with commitment-hidden individual stakes.
#[derive(Clone, Debug)]
pub struct PrivateStakePool {
    /// Unique pool identifier.
    pub pool_id: [u8; 32],
    /// Creator of the pool.
    pub creator: [u8; 32],
    /// Minimum stake amount in lamports.
    pub min_stake_lamports: u64,
    /// Reward rate in basis points per epoch.
    pub reward_rate_bps: u16,
    /// Number of epochs for lockup.
    pub lockup_epochs: u8,
    /// Total number of stake commitments.
    pub total_stake_commitments: u32,
    /// Total staked lamports (aggregate only).
    pub total_staked_lamports: u64,
    /// When the pool was created.
    pub created_at: i64,
    /// Whether the pool is active.
    pub is_active: bool,
}

/// One staker's commitment record.
#[derive(Clone, Debug)]
pub struct PrivateStakeRecord {
    /// The pool this stake belongs to.
    pub pool: [u8; 32],
    /// The staker.
    pub staker: [u8; 32],
    /// Stake commitment `H(amount ‖ validator_commitment ‖ staker ‖ secret)`.
    pub stake_commitment: [u8; 32],
    /// Validator commitment `H(validator ‖ salt)`.
    pub validator_commitment: [u8; 32],
    /// When the stake was created.
    pub staked_at: i64,
    /// When the stake can be withdrawn.
    pub unlock_at: i64,
    /// Whether the stake is active.
    pub is_active: bool,
    /// Total rewards claimed.
    pub claimed_rewards: u64,
    /// When rewards were last claimed.
    pub last_claim_at: i64,
    /// When the stake was withdrawn (if applicable).
    pub unstaked_at: i64,
}

/// Event: a stake pool was created.
#[derive(Clone, Debug)]
pub struct StakePoolCreated {
    pub pool: [u8; 32],
    pub pool_id: [u8; 32],
    pub creator: [u8; 32],
    pub min_stake_lamports: u64,
    pub reward_rate_bps: u16,
    pub lockup_epochs: u8,
    pub timestamp: i64,
}

/// Event: a private stake was created.
#[derive(Clone, Debug)]
pub struct PrivateStakeCreated {
    pub pool: [u8; 32],
    pub staker: [u8; 32],
    pub stake_commitment: [u8; 32],
    pub validator_commitment: [u8; 32],
    pub unlock_at: i64,
    pub timestamp: i64,
}

/// Event: a stake was withdrawn; only the hash of the nullifier is
/// carried.
#[derive(Clone, Debug)]
pub struct PrivateUnstake {
    pub pool: [u8; 32],
    pub staker: [u8; 32],
    pub nullifier_hash: [u8; 32],
    pub timestamp: i64,
}

/// Event: rewards were claimed; only a commitment to the reward is
/// carried.
#[derive(Clone, Debug)]
pub struct RewardsClaimed {
    pub pool: [u8; 32],
    pub staker: [u8; 32],
    pub reward_commitment: [u8; 32],
    pub timestamp: i64,
}

/// Well-formedness of a stake pool: creation-time configuration bounds.
pub open spec fn stake_pool_wf(p: PrivateStakePool) -> bool {
    &&& p.reward_rate_bps <= 10000
    &&& 1 <= p.lockup_epochs <= 52
    &&& p.min_stake_lamports >= 1000000
}

/// The stake commitment preimage:
/// `le(amount) ‖ validator_commitment ‖ staker ‖ secret`.
pub open spec fn spec_stake_commitment(
    amount_lamports: u64,
    validator_commitment: Seq<u8>,
    staker: Seq<u8>,
    secret: Seq<u8>,
) -> Seq<u8> {
    keccak_of(
        vstd::bytes::spec_u64_to_le_bytes(amount_lamports) + validator_commitment + staker
            + secret,
    )
}

/// Compute the stake commitment
/// `H(le(amount) ‖ validator_commitment ‖ staker ‖ secret)`.
pub fn compute_stake_commitment(
    amount_lamports: u64,
    validator_commitment: &[u8; 32],
    staker: &[u8; 32],
    secret: &[u8; 32],
) -> (r: [u8; 32])
    ensures
        r@ == spec_stake_commitment(amount_lamports, validator_commitment@, staker@, secret@),
{
    let mut data: Vec<u8> = Vec::new();
    let amount_bytes = vstd::bytes::u64_to_le_bytes(amount_lamports);
    push_bytes(&mut data, amount_bytes.as_slice());
    push_bytes(&mut data, validator_commitment.as_slice());
    push_bytes(&mut data, staker.as_slice());
    push_bytes(&mut data, secret.as_slice());
    keccak256(&data)
}

/// The error, if any, that `create_stake_pool` surfaces for these inputs.
pub open spec fn create_stake_pool_err(
    min_stake_lamports: u64,
    reward_rate_bps: u16,
    lockup_epochs: u8,
) -> Option<ErrorCode> {
    if min_stake_lamports < 1000000 {
        Some(ErrorCode::StakeTooSmall)
    } else if reward_rate_bps > 10000 {
        Some(ErrorCode::InvalidRewardRate)
    } else if !(1 <= lockup_epochs <= 52) {
        Some(ErrorCode::InvalidLockupPeriod)
    } else {
        None
    }
}

/// Create a stake pool: the minimum stake, reward rate and lockup must
/// lie in their allowed ranges.
pub fn create_stake_pool(
    pool_key: [u8; 32],
    creator: [u8; 32],
    pool_id: [u8; 32],
    min_stake_lamports: u64,
    reward_rate_bps: u16,
    lockup_epochs: u8,
    now: i64,
) -> (r: Result<(PrivateStakePool, StakePoolCreated), ErrorCode>)
    ensures
        match r {
            Ok(pr) => {
                &&& create_stake_pool_err(min_stake_lamports, reward_rate_bps, lockup_epochs)
                    is None
                &&& stake_pool_wf(pr.0)
                &&& pr.0.pool_id == pool_id
                &&& pr.0.creator == creator
                &&& pr.0.min_stake_lamports == min_stake_lamports
                &&& pr.0.reward_rate_bps == reward_rate_bps
                &&& pr.0.lockup_epochs == lockup_epochs
                &&& pr.0.total_stake_commitments == 0
                &&& pr.0.total_staked_lamports == 0
                &&& pr.0.created_at == now
                &&& pr.0.is_active
                &&& pr.1.pool == pool_key
                &&& pr.1.pool_id == pool_id
                &&& pr.1.creator == creator
                &&& pr.1.min_stake_lamports == min_stake_lamports
                &&& pr.1.reward_rate_bps == reward_rate_bps
                &&& pr.1.lockup_epochs == lockup_epochs
                &&& pr.1.timestamp == now
            },
            Err(e) => create_stake_pool_err(min_stake_lamports, reward_rate_bps, lockup_epochs)
                == Some(e),
        },
{
    if min_stake_lamports < 1000000 {
        return Err(ErrorCode::StakeTooSmall);
    }
    if reward_rate_bps > 10000 {
        return Err(ErrorCode::InvalidRewardRate);
    }
    if !(lockup_epochs >= 1 && lockup_epochs <= 52) {
        return Err(ErrorCode::InvalidLockupPeriod);
    }
    let pool = PrivateStakePool {
        pool_id,
        creator,
        min_stake_lamports,
        reward_rate_bps,
        lockup_epochs,
        total_stake_commitments: 0,
        total_staked_lamports: 0,
        created_at: now,
        is_active: true,
    };
    let event = StakePoolCreated {
        pool: pool_key,
        pool_id,
        creator,
        min_stake_lamports,
        reward_rate_bps,
        lockup_epochs,
        timestamp: now,
    };
    Ok((pool, event))
}

/// The error, if any, that `stake_private` surfaces for these inputs.
pub open spec fn stake_private_err(pool: PrivateStakePool) -> Option<ErrorCode> {
    if !pool.is_active {
        Some(ErrorCode::PoolNotActive)
    } else {
        None
    }
}

/// Record a stake commitment: the amount stays hidden inside the
/// commitment; only the commitment count advances.
pub fn stake_private(
    stake_pool: &mut PrivateStakePool,
    pool_key: [u8; 32],
    staker: [u8; 32],
    stake_commitment: [u8; 32],
    validator_commitment: [u8; 32],
    _amount_commitment: [u8; 32],
    now: i64,
) -> (r: Result<(PrivateStakeRecord, PrivateStakeCreated), ErrorCode>)
    requires
        stake_pool_wf(*old(stake_pool)),
        old(stake_pool).total_stake_commitments < u32::MAX,
        0 <= now,
        now + 22464000 <= i64::MAX,
    ensures
        match r {
            Ok(pr) => {
                &&& stake_private_err(*old(stake_pool)) is None
                &&& pr.0.pool == pool_key
                &&& pr.0.staker == staker
                &&& pr.0.stake_commitment == stake_commitment
                &&& pr.0.validator_commitment == validator_commitment
                &&& pr.0.staked_at == now
                &&& pr.0.unlock_at == now + old(stake_pool).lockup_epochs * 432000
                &&& pr.0.is_active
                &&& pr.0.claimed_rewards == 0
                &&& final(stake_pool).total_stake_commitments == old(
                    stake_pool,
                ).total_stake_commitments + 1
                &&& final(stake_pool).pool_id == old(stake_pool).pool_id
                &&& final(stake_pool).creator == old(stake_pool).creator
                &&& final(stake_pool).min_stake_lamports == old(stake_pool).min_stake_lamports
                &&& final(stake_pool).reward_rate_bps == old(stake_pool).reward_rate_bps
                &&& final(stake_pool).lockup_epochs == old(stake_pool).lockup_epochs
                &&& final(stake_pool).total_staked_lamports == old(
                    stake_pool,
                ).total_staked_lamports
                &&& final(stake_pool).created_at == old(stake_pool).created_at
                &&& final(stake_pool).is_active == old(stake_pool).is_active
                &&& pr.1.pool == pool_key
                &&& pr.1.staker == staker
                &&& pr.1.stake_commitment == stake_commitment
                &&& pr.1.validator_commitment == validator_commitment
                &&& pr.1.unlock_at == now + old(stake_pool).lockup_epochs * 432000
                &&& pr.1.timestamp == now
            },
            Err(e) => {
                &&& stake_private_err(*old(stake_pool)) == Some(e)
                &&& *final(stake_pool) == *old(stake_pool)
            },
        },
{
    if !stake_pool.is_active {
        return Err(ErrorCode::PoolNotActive);
    }
    let unlock_at: i64 = now + (stake_pool.lockup_epochs as i64) * 432000;
    let record = PrivateStakeRecord {
        pool: pool_key,
        staker,
        stake_commitment,
        validator_commitment,
        staked_at: now,
        unlock_at,
        is_active: true,
        claimed_rewards: 0,
        last_claim_at: 0,
        unstaked_at: 0,
    };
    stake_pool.total_stake_commitments = stake_pool.total_stake_commitments + 1;
    let event = PrivateStakeCreated {
        pool: pool_key,
        staker,
        stake_commitment,
        validator_commitment,
        unlock_at,
        timestamp: now,
    };
    Ok((record, event))
}

/// The error, if any, that `unstake` surfaces for these inputs.
pub open spec fn unstake_err(
    record: PrivateStakeRecord,
    nullifier: Seq<u8>,
    withdrawal_proof: Seq<u8>,
    now: i64,
) -> Option<ErrorCode> {
    if !record.is_active {
        Some(ErrorCode::StakeNotActive)
    } else if now < record.unlock_at {
        Some(ErrorCode::StakeLocked)
    } else if withdrawal_proof.len() < 256 {
        Some(ErrorCode::InvalidWithdrawalProof)
    } else if !spec_nullifier_derivation_ok(
        record.stake_commitment@,
        nullifier,
        withdrawal_proof,
    ) {
        Some(ErrorCode::InvalidNullifier)
    } else {
        None
    }
}

/// Withdraw a stake: only after the lockup has expired, with a proof that
/// the published nullifier derives from the stake commitment. The record
/// is marked inactive; the event carries only the nullifier's hash.
pub fn unstake(
    stake_record: &mut PrivateStakeRecord,
    pool_key: [u8; 32],
    staker: [u8; 32],
    nullifier: [u8; 32],
    withdrawal_proof: &Vec<u8>,
    now: i64,
) -> (r: Result<PrivateUnstake, ErrorCode>)
    ensures
        match r {
            Ok(ev) => {
                &&& unstake_err(*old(stake_record), nullifier@, withdrawal_proof@, now) is None
                &&& !final(stake_record).is_active
                &&& final(stake_record).unstaked_at == now
                &&& final(stake_record).pool == old(stake_record).pool
                &&& final(stake_record).staker == old(stake_record).staker
                &&& final(stake_record).stake_commitment == old(stake_record).stake_commitment
                &&& final(stake_record).validator_commitment == old(
                    stake_record,
                ).validator_commitment
                &&& final(stake_record).staked_at == old(stake_record).staked_at
                &&& final(stake_record).unlock_at == old(stake_record).unlock_at
                &&& final(stake_record).claimed_rewards == old(stake_record).claimed_rewards
                &&& final(stake_record).last_claim_at == old(stake_record).last_claim_at
                &&& ev.pool == pool_key
                &&& ev.staker == staker
                &&& ev.nullifier_hash@ == keccak_of(nullifier@)
                &&& ev.timestamp == now
            },
            Err(e) => {
                &&& unstake_err(*old(stake_record), nullifier@, withdrawal_proof@, now) == Some(e)
                &&& *final(stake_record) == *old(stake_record)
            },
        },
{
    if !stake_record.is_active {
        return Err(ErrorCode::StakeNotActive);
    }
    if now < stake_record.unlock_at {
        return Err(ErrorCode::StakeLocked);
    }
    if withdrawal_proof.len() < 256 {
        return Err(ErrorCode::InvalidWithdrawalProof);
    }
    if !verify_nullifier_derivation(
        &stake_record.stake_commitment,
        &nullifier,
        withdrawal_proof.as_slice(),
    ) {
        return Err(ErrorCode::InvalidNullifier);
    }
    stake_record.is_active = false;
    stake_record.unstaked_at = now;
    let mut nullifier_bytes: Vec<u8> = Vec::new();
    push_bytes(&mut nullifier_bytes, nullifier.as_slice());
    let nullifier_hash = keccak256(&nullifier_bytes);
    proof {
        assert(nullifier_bytes@ =~= nullifier@);
    }
    Ok(PrivateUnstake { pool: pool_key, staker, nullifier_hash, timestamp: now })
}

/// The error, if any, that `claim_rewards` surfaces for these inputs.
pub open spec fn claim_rewards_err(
    pool: PrivateStakePool,
    record: PrivateStakeRecord,
    reward_proof: Seq<u8>,
    now: i64,
) -> Option<ErrorCode> {
    if !record.is_active {
        Some(ErrorCode::StakeNotActive)
    } else if reward_proof.len() < 256 {
        Some(ErrorCode::InvalidRewardProof)
    } else if !spec_reward_claim_proof_ok(
        record.stake_commitment@,
        pool.reward_rate_bps,
        record.staked_at,
        now,
        reward_proof,
    ) {
        Some(ErrorCode::InvalidRewardProof)
    } else {
        None
    }
}

/// Claim staking rewards against a proof bound to the stake commitment,
/// the pool's rate, the stake time and the current time. The event
/// carries only a commitment to the reward.
pub fn claim_rewards(
    stake_pool: &PrivateStakePool,
    stake_record: &mut PrivateStakeRecord,
    pool_key: [u8; 32],
    staker: [u8; 32],
    reward_proof: &Vec<u8>,
    now: i64,
) -> (r: Result<RewardsClaimed, ErrorCode>)
    requires
        0 <= old(stake_record).staked_at,
        0 <= now,
    ensures
        match r {
            Ok(ev) => {
                &&& claim_rewards_err(*stake_pool, *old(stake_record), reward_proof@, now) is None
                &&& final(stake_record).last_claim_at == now
                &&& final(stake_record).pool == old(stake_record).pool
                &&& final(stake_record).staker == old(stake_record).staker
                &&& final(stake_record).stake_commitment == old(stake_record).stake_commitment
                &&& final(stake_record).validator_commitment == old(
                    stake_record,
                ).validator_commitment
                &&& final(stake_record).staked_at == old(stake_record).staked_at
                &&& final(stake_record).unlock_at == old(stake_record).unlock_at
                &&& final(stake_record).is_active == old(stake_record).is_active
                &&& final(stake_record).claimed_rewards == old(stake_record).claimed_rewards
                &&& final(stake_record).unstaked_at == old(stake_record).unstaked_at
                &&& ev.pool == pool_key
                &&& ev.staker == staker
                &&& ev.reward_commitment@ == spec_reward_commitment(reward_proof@)
                &&& ev.timestamp == now
            },
            Err(e) => {
                &&& claim_rewards_err(*stake_pool, *old(stake_record), reward_proof@, now) == Some(
                    e,
                )
                &&& *final(stake_record) == *old(stake_record)
            },
        },
{
    if !stake_record.is_active {
        return Err(ErrorCode::StakeNotActive);
    }
    if reward_proof.len() < 256 {
        return Err(ErrorCode::InvalidRewardProof);
    }
    if !verify_reward_claim_proof(
        &stake_record.stake_commitment,
        stake_pool.reward_rate_bps,
        stake_record.staked_at,
        now,
        reward_proof.as_slice(),
    ) {
        return Err(ErrorCode::InvalidRewardProof);
    }
    let reward_commitment = compute_reward_commitment(reward_proof);
    stake_record.last_claim_at = now;
    Ok(RewardsClaimed { pool: pool_key, staker, reward_commitment, timestamp: now })
}

} // verus!

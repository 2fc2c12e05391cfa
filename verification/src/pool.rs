//! Note-based shielded value pool: an append-only Merkle accumulator of
//! value commitments plus a nullifier set preventing double-spend.
//! Amounts never appear in any interface; notes are consumed by
//! publishing a nullifier and proving membership of the tree.

use vstd::prelude::*;
use crate::bytes::{bytes32_eq, push_bytes, zero32};
use crate::errors::ErrorCode;
use crate::hash::{keccak_of, keccak256};
use crate::proofs::{
    spec_range_proof_ok,
    spec_reward_proof_ok,
    spec_withdrawal_proof_ok,
    verify_range_proof,
    verify_reward_proof,
    verify_withdrawal_proof,
};

verus! {

/// A shielded pool: the Merkle accumulator over note commitments and the
/// set of spent-note nullifiers.
#[derive(Clone, Debug)]
pub struct ShieldedPool {
    /// Unique pool identifier.
    pub pool_id: [u8; 32],
    /// Creator of the pool.
    pub creator: [u8; 32],
    /// Reward rate in basis points per epoch.
    pub reward_rate_bps: u16,
    /// Number of epochs for lockup.
    pub lockup_epochs: u8,
    /// Current Merkle root over all inserted note commitments.
    pub merkle_root: [u8; 32],
    /// Index for the next note insertion.
    pub next_note_index: u32,
    /// Total number of notes created by deposits.
    pub total_notes: u32,
    /// Number of nullifiers recorded (notes spent).
    pub nullifier_count: u32,
    /// The recorded nullifiers themselves: existence of a value here is
    /// the double-spend guard, and recording is exclusive.
    pub nullifiers: Vec<[u8; 32]>,
    /// When the pool was created.
    pub created_at: i64,
    /// Whether the pool is active.
    pub is_active: bool,
}

/// A shielded note: a commitment hiding the amount, plus an encrypted
/// payload only the owner can read.
#[derive(Clone, Debug)]
pub struct ShieldedNote {
    /// The pool this note belongs to.
    pub pool: [u8; 32],
    /// Note commitment `H(amount ‖ blinding ‖ owner_commitment)`.
    pub commitment: [u8; 32],
    /// Encrypted note data, opaque to the pool.
    pub encrypted_data: [u8; 64],
    /// Index in the Merkle tree.
    pub note_index: u32,
    /// When the note was created.
    pub created_at: i64,
    /// When the note can be withdrawn.
    pub unlock_at: i64,
    /// Whether this note has been spent.
    pub is_spent: bool,
}

/// A nullifier record: its existence for a `(pool, nullifier)` pair marks
/// the note spent, permanently.
#[derive(Clone, Debug)]
pub struct NullifierRecord {
    /// The pool this nullifier belongs to.
    pub pool: [u8; 32],
    /// The nullifier hash `H(note_commitment ‖ owner_secret)`.
    pub nullifier: [u8; 32],
    /// When the nullifier was recorded.
    pub spent_at: i64,
}

/// Event: a shielded pool was created.
#[derive(Clone, Debug)]
pub struct ShieldedPoolCreated {
    pub pool: [u8; 32],
    pub pool_id: [u8; 32],
    pub creator: [u8; 32],
    pub reward_rate_bps: u16,
    pub lockup_epochs: u8,
    pub timestamp: i64,
}

/// Event: a note was deposited. No amount is ever carried.
#[derive(Clone, Debug)]
pub struct ShieldedDeposit {
    pub pool: [u8; 32],
    pub note_commitment: [u8; 32],
    pub note_index: u32,
    pub merkle_root: [u8; 32],
    pub timestamp: i64,
}

/// Event: a note was spent. No amount is ever carried.
#[derive(Clone, Debug)]
pub struct ShieldedWithdraw {
    pub pool: [u8; 32],
    pub nullifier: [u8; 32],
    pub output_commitment: [u8; 32],
    pub merkle_root: [u8; 32],
    pub timestamp: i64,
}

/// Event: rewards were claimed into a fresh note. No amount is carried.
#[derive(Clone, Debug)]
pub struct ShieldedRewardsClaimed {
    pub pool: [u8; 32],
    pub stake_nullifier: [u8; 32],
    pub new_note_commitment: [u8; 32],
    pub merkle_root: [u8; 32],
    pub timestamp: i64,
}

/// Well-formedness of a pool: the counter mirrors the recorded nullifier
/// set, creation-time configuration bounds hold, and deposits never
/// outnumber insertions.
pub open spec fn pool_wf(p: ShieldedPool) -> bool {
    &&& p.nullifier_count == p.nullifiers@.len()
    &&& p.reward_rate_bps <= 10000
    &&& 1 <= p.lockup_epochs <= 52
    &&& p.total_notes <= p.next_note_index
}

/// Whether a nullifier value has already been recorded in the pool.
pub open spec fn nullifier_spent(p: ShieldedPool, nullifier: Seq<u8>) -> bool {
    exists|i: int| 0 <= i < p.nullifiers@.len() && p.nullifiers@[i]@ == nullifier
}

/// One step of the append-only accumulator:
/// `new_root = H(root ‖ commitment ‖ le(index))`.
pub open spec fn spec_merkle_insert(root: Seq<u8>, commitment: Seq<u8>, index: u32) -> Seq<u8> {
    keccak_of(root + commitment + vstd::bytes::spec_u32_to_le_bytes(index))
}

/// The accumulator root after replaying a sequence of
/// `(commitment, index)` insertions from a starting root.
pub open spec fn spec_merkle_replay(root: Seq<u8>, inserts: Seq<([u8; 32], u32)>) -> Seq<u8>
    decreases inserts.len(),
{
    if inserts.len() == 0 {
        root
    } else {
        spec_merkle_insert(
            spec_merkle_replay(root, inserts.drop_last()),
            inserts.last().0@,
            inserts.last().1,
        )
    }
}

/// Replaying one more insertion extends the accumulator by one step.
pub proof fn lemma_merkle_replay_step(
    root: Seq<u8>,
    inserts: Seq<([u8; 32], u32)>,
    commitment: [u8; 32],
    index: u32,
)
    ensures
        spec_merkle_replay(root, inserts.push((commitment, index))) == spec_merkle_insert(
            spec_merkle_replay(root, inserts),
            commitment@,
            index,
        ),
{
    assert(inserts.push((commitment, index)).drop_last() =~= inserts);
}

/// Merkle insertion is replay-deterministic: inserting the same sequence
/// of `(commitment, index)` pairs from the same starting root always
/// yields the same final root.
pub proof fn lemma_merkle_replay_deterministic(
    root1: Seq<u8>,
    root2: Seq<u8>,
    inserts1: Seq<([u8; 32], u32)>,
    inserts2: Seq<([u8; 32], u32)>,
)
    requires
        root1 == root2,
        inserts1 == inserts2,
    ensures
        spec_merkle_replay(root1, inserts1) == spec_merkle_replay(root2, inserts2),
{
}

/// Combine one Merkle level: the sibling goes left or right of the
/// running hash as the path bit selects.
pub open spec fn spec_merkle_level(current: Seq<u8>, sibling: Seq<u8>, is_right: bool) -> Seq<u8> {
    if is_right {
        keccak_of(sibling + current)
    } else {
        keccak_of(current + sibling)
    }
}

/// The hash obtained from a leaf after folding in the first `levels`
/// siblings of a membership proof, in path order.
pub open spec fn spec_merkle_fold(
    leaf: Seq<u8>,
    siblings: Seq<[u8; 32]>,
    path_indices: u8,
    levels: int,
) -> Seq<u8>
    decreases levels,
{
    if levels <= 0 {
        leaf
    } else {
        spec_merkle_level(
            spec_merkle_fold(leaf, siblings, path_indices, levels - 1),
            siblings[levels - 1]@,
            (path_indices >> ((levels - 1) as u8)) & 1 == 1,
        )
    }
}

/// Whether an eight-level membership proof connects the leaf to the root.
pub open spec fn spec_merkle_proof_ok(
    root: Seq<u8>,
    siblings: Seq<[u8; 32]>,
    path_indices: u8,
    leaf: Seq<u8>,
) -> bool {
    spec_merkle_fold(leaf, siblings, path_indices, 8) == root
}

/// Insert a note commitment into the accumulator and return the new root:
/// `H(root ‖ commitment ‖ le(index))`.
pub fn insert_note_to_merkle_tree(
    current_root: &[u8; 32],
    note_commitment: &[u8; 32],
    note_index: u32,
) -> (r: [u8; 32])
    ensures
        r@ == spec_merkle_insert(current_root@, note_commitment@, note_index),
{
    let mut data: Vec<u8> = Vec::new();
    push_bytes(&mut data, current_root.as_slice());
    push_bytes(&mut data, note_commitment.as_slice());
    let index_bytes = vstd::bytes::u32_to_le_bytes(note_index);
    push_bytes(&mut data, index_bytes.as_slice());
    keccak256(&data)
}

/// Verify an eight-level Merkle membership proof: fold the leaf with each
/// sibling, left or right as bit `i` of the path selects, and compare
/// against the root.
pub fn verify_merkle_proof(
    root: &[u8; 32],
    proof: &[[u8; 32]; 8],
    path_indices: u8,
    leaf_hash: &[u8; 32],
) -> (r: bool)
    ensures
        r == spec_merkle_proof_ok(root@, proof@, path_indices, leaf_hash@),
{
    let mut current: [u8; 32] = *leaf_hash;
    for i in 0..8usize
        invariant
            current@ == spec_merkle_fold(leaf_hash@, proof@, path_indices, i as int),
    {
        let sibling = &proof[i];
        let is_right = (path_indices >> (i as u8)) & 1 == 1;
        let mut combined: Vec<u8> = Vec::new();
        if is_right {
            push_bytes(&mut combined, sibling.as_slice());
            push_bytes(&mut combined, current.as_slice());
        } else {
            push_bytes(&mut combined, current.as_slice());
            push_bytes(&mut combined, sibling.as_slice());
        }
        current = keccak256(&combined);
        proof {
            assert(current@ == spec_merkle_fold(
                leaf_hash@,
                proof@,
                path_indices,
                i as int + 1,
            ));
        }
    }
    bytes32_eq(&current, root)
}

/// Check whether a nullifier has already been recorded in the pool.
pub fn is_nullifier_used(pool: &ShieldedPool, nullifier: &[u8; 32]) -> (r: bool)
    ensures
        r == nullifier_spent(*pool, nullifier@),
{
    let n: usize = pool.nullifiers.len();
    for i in 0..n
        invariant
            n == pool.nullifiers@.len(),
            forall|j: int| 0 <= j < i ==> pool.nullifiers@[j]@ != nullifier@,
    {
        if bytes32_eq(&pool.nullifiers[i], nullifier) {
            proof {
                let j = i as int;
                assert(pool.nullifiers@[j]@ == nullifier@);
            }
            return true;
        }
    }
    false
}

/// Once a nullifier has been recorded for a pool, it stays spent: any
/// later spend attempt with the same value in that pool fails with the
/// double-spend error, so a `(pool, nullifier)` pair yields at most one
/// record.
pub proof fn lemma_nullifier_spent_once(
    pre: ShieldedPool,
    post: ShieldedPool,
    nullifier: [u8; 32],
    siblings: Seq<[u8; 32]>,
    path_indices: u8,
    proof: Seq<u8>,
    output_commitment: Seq<u8>,
    now: i64,
)
    requires
        post.is_active,
        post.nullifiers@ == pre.nullifiers@.push(nullifier),
    ensures
        nullifier_spent(post, nullifier@),
        withdraw_err(post, nullifier@, siblings, path_indices, proof, output_commitment) == Some(
            ErrorCode::NullifierAlreadyUsed,
        ),
        claim_rewards_err(post, nullifier@, siblings, path_indices, proof, output_commitment, now)
            == Some(ErrorCode::NullifierAlreadyUsed),
{
    let j = post.nullifiers@.len() - 1;
    assert(post.nullifiers@[j]@ == nullifier@);
}

/// The error, if any, that `create_shielded_pool` surfaces for these
/// inputs.
pub open spec fn create_pool_err(reward_rate_bps: u16, lockup_epochs: u8) -> Option<ErrorCode> {
    if reward_rate_bps > 10000 {
        Some(ErrorCode::InvalidRewardRate)
    } else if !(1 <= lockup_epochs <= 52) {
        Some(ErrorCode::InvalidLockupPeriod)
    } else {
        None
    }
}

/// Create a shielded pool with an empty tree (all-zero root), no notes
/// and no recorded nullifiers.
pub fn create_shielded_pool(
    pool_key: [u8; 32],
    creator: [u8; 32],
    pool_id: [u8; 32],
    reward_rate_bps: u16,
    lockup_epochs: u8,
    now: i64,
) -> (r: Result<(ShieldedPool, ShieldedPoolCreated), ErrorCode>)
    ensures
        match r {
            Ok(pr) => {
                &&& create_pool_err(reward_rate_bps, lockup_epochs) is None
                &&& pool_wf(pr.0)
                &&& pr.0.pool_id == pool_id
                &&& pr.0.creator == creator
                &&& pr.0.reward_rate_bps == reward_rate_bps
                &&& pr.0.lockup_epochs == lockup_epochs
                &&& pr.0.merkle_root@ == zero32()
                &&& pr.0.next_note_index == 0
                &&& pr.0.total_notes == 0
                &&& pr.0.nullifier_count == 0
                &&& pr.0.nullifiers@.len() == 0
                &&& pr.0.created_at == now
                &&& pr.0.is_active
                &&& pr.1.pool == pool_key
                &&& pr.1.pool_id == pool_id
                &&& pr.1.creator == creator
                &&& pr.1.reward_rate_bps == reward_rate_bps
                &&& pr.1.lockup_epochs == lockup_epochs
                &&& pr.1.timestamp == now
            },
            Err(e) => create_pool_err(reward_rate_bps, lockup_epochs) == Some(e),
        },
{
    if reward_rate_bps > 10000 {
        return Err(ErrorCode::InvalidRewardRate);
    }
    if !(lockup_epochs >= 1 && lockup_epochs <= 52) {
        return Err(ErrorCode::InvalidLockupPeriod);
    }
    let pool = ShieldedPool {
        pool_id,
        creator,
        reward_rate_bps,
        lockup_epochs,
        merkle_root: [0u8; 32],
        next_note_index: 0,
        total_notes: 0,
        nullifier_count: 0,
        nullifiers: Vec::new(),
        created_at: now,
        is_active: true,
    };
    proof {
        assert(pool.merkle_root@ =~= zero32());
    }
    let event = ShieldedPoolCreated {
        pool: pool_key,
        pool_id,
        creator,
        reward_rate_bps,
        lockup_epochs,
        timestamp: now,
    };
    Ok((pool, event))
}

/// The error, if any, that `shield_deposit` surfaces for these inputs.
pub open spec fn deposit_err(
    p: ShieldedPool,
    note_commitment: Seq<u8>,
    range_proof: Seq<u8>,
) -> Option<ErrorCode> {
    if !p.is_active {
        Some(ErrorCode::PoolNotActive)
    } else if p.next_note_index >= 256 {
        Some(ErrorCode::PoolFull)
    } else if range_proof.len() < 64 {
        Some(ErrorCode::InvalidRangeProof)
    } else if !spec_range_proof_ok(note_commitment, range_proof) {
        Some(ErrorCode::InvalidRangeProof)
    } else {
        None
    }
}

/// Deposit a note with a hidden amount: the pool must be active and not
/// full, and the range proof must pass the structural checks against the
/// commitment. The note is inserted at the next index and the root
/// advances by exactly one accumulator step. No amount appears anywhere.
pub fn shield_deposit(
    pool: &mut ShieldedPool,
    pool_key: [u8; 32],
    note_commitment: [u8; 32],
    encrypted_note: [u8; 64],
    range_proof: &Vec<u8>,
    now: i64,
) -> (r: Result<(ShieldedNote, ShieldedDeposit), ErrorCode>)
    requires
        pool_wf(*old(pool)),
        0 <= now,
        now + 22464000 <= i64::MAX,
    ensures
        pool_wf(*final(pool)),
        match r {
            Ok(pr) => {
                &&& deposit_err(*old(pool), note_commitment@, range_proof@) is None
                &&& pr.0.pool == pool_key
                &&& pr.0.commitment == note_commitment
                &&& pr.0.encrypted_data == encrypted_note
                &&& pr.0.note_index == old(pool).next_note_index
                &&& pr.0.created_at == now
                &&& pr.0.unlock_at == now + old(pool).lockup_epochs * 432000
                &&& !pr.0.is_spent
                &&& final(pool).merkle_root@ == spec_merkle_insert(
                    old(pool).merkle_root@,
                    note_commitment@,
                    old(pool).next_note_index,
                )
                &&& final(pool).next_note_index == old(pool).next_note_index + 1
                &&& final(pool).total_notes == old(pool).total_notes + 1
                &&& final(pool).nullifier_count == old(pool).nullifier_count
                &&& final(pool).nullifiers@ == old(pool).nullifiers@
                &&& final(pool).pool_id == old(pool).pool_id
                &&& final(pool).creator == old(pool).creator
                &&& final(pool).reward_rate_bps == old(pool).reward_rate_bps
                &&& final(pool).lockup_epochs == old(pool).lockup_epochs
                &&& final(pool).created_at == old(pool).created_at
                &&& final(pool).is_active == old(pool).is_active
                &&& pr.1.pool == pool_key
                &&& pr.1.note_commitment == note_commitment
                &&& pr.1.note_index == old(pool).next_note_index
                &&& pr.1.merkle_root == final(pool).merkle_root
                &&& pr.1.timestamp == now
            },
            Err(e) => {
                &&& deposit_err(*old(pool), note_commitment@, range_proof@) == Some(e)
                &&& *final(pool) == *old(pool)
            },
        },
{
    if !pool.is_active {
        return Err(ErrorCode::PoolNotActive);
    }
    if pool.next_note_index >= 256 {
        return Err(ErrorCode::PoolFull);
    }
    if range_proof.len() < 64 {
        return Err(ErrorCode::InvalidRangeProof);
    }
    if !verify_range_proof(&note_commitment, range_proof.as_slice()) {
        return Err(ErrorCode::InvalidRangeProof);
    }
    let note_index = pool.next_note_index;
    let note = ShieldedNote {
        pool: pool_key,
        commitment: note_commitment,
        encrypted_data: encrypted_note,
        note_index,
        created_at: now,
        unlock_at: now + (pool.lockup_epochs as i64) * 432000,
        is_spent: false,
    };
    let new_root = insert_note_to_merkle_tree(&pool.merkle_root, &note_commitment, note_index);
    pool.merkle_root = new_root;
    pool.next_note_index = pool.next_note_index + 1;
    pool.total_notes = pool.total_notes + 1;
    let event = ShieldedDeposit {
        pool: pool_key,
        note_commitment,
        note_index,
        merkle_root: new_root,
        timestamp: now,
    };
    Ok((note, event))
}

/// The error, if any, that `shield_withdraw` surfaces for these inputs.
pub open spec fn withdraw_err(
    p: ShieldedPool,
    nullifier: Seq<u8>,
    siblings: Seq<[u8; 32]>,
    path_indices: u8,
    withdrawal_proof: Seq<u8>,
    output_commitment: Seq<u8>,
) -> Option<ErrorCode> {
    if !p.is_active {
        Some(ErrorCode::PoolNotActive)
    } else if nullifier_spent(p, nullifier) {
        Some(ErrorCode::NullifierAlreadyUsed)
    } else if !spec_merkle_proof_ok(p.merkle_root@, siblings, path_indices, nullifier) {
        Some(ErrorCode::InvalidMerkleProof)
    } else if withdrawal_proof.len() < 256 {
        Some(ErrorCode::InvalidWithdrawalProof)
    } else if !spec_withdrawal_proof_ok(
        nullifier,
        output_commitment,
        p.merkle_root@,
        withdrawal_proof,
    ) {
        Some(ErrorCode::InvalidWithdrawalProof)
    } else {
        None
    }
}

/// Spend a note: the nullifier must be unrecorded (recording it here is
/// the double-spend guard), the membership proof must connect it to the
/// current root, and the withdrawal proof must pass the structural
/// checks. A non-zero output commitment (change) is inserted as a fresh
/// note. No amount appears anywhere.
pub fn shield_withdraw(
    pool: &mut ShieldedPool,
    pool_key: [u8; 32],
    nullifier: [u8; 32],
    merkle_proof: &[[u8; 32]; 8],
    merkle_path_indices: u8,
    withdrawal_proof: &Vec<u8>,
    output_commitment: [u8; 32],
    now: i64,
) -> (r: Result<(NullifierRecord, ShieldedWithdraw), ErrorCode>)
    requires
        pool_wf(*old(pool)),
        old(pool).nullifier_count < u32::MAX,
        old(pool).next_note_index < u32::MAX,
    ensures
        pool_wf(*final(pool)),
        match r {
            Ok(pr) => {
                &&& withdraw_err(
                    *old(pool),
                    nullifier@,
                    merkle_proof@,
                    merkle_path_indices,
                    withdrawal_proof@,
                    output_commitment@,
                ) is None
                &&& pr.0.pool == pool_key
                &&& pr.0.nullifier == nullifier
                &&& pr.0.spent_at == now
                &&& final(pool).nullifiers@ == old(pool).nullifiers@.push(nullifier)
                &&& final(pool).nullifier_count == old(pool).nullifier_count + 1
                &&& nullifier_spent(*final(pool), nullifier@)
                &&& (output_commitment@ != zero32() ==> {
                    &&& final(pool).merkle_root@ == spec_merkle_insert(
                        old(pool).merkle_root@,
                        output_commitment@,
                        old(pool).next_note_index,
                    )
                    &&& final(pool).next_note_index == old(pool).next_note_index + 1
                })
                &&& (output_commitment@ == zero32() ==> {
                    &&& final(pool).merkle_root == old(pool).merkle_root
                    &&& final(pool).next_note_index == old(pool).next_note_index
                })
                &&& final(pool).total_notes == old(pool).total_notes
                &&& final(pool).pool_id == old(pool).pool_id
                &&& final(pool).creator == old(pool).creator
                &&& final(pool).reward_rate_bps == old(pool).reward_rate_bps
                &&& final(pool).lockup_epochs == old(pool).lockup_epochs
                &&& final(pool).created_at == old(pool).created_at
                &&& final(pool).is_active == old(pool).is_active
                &&& pr.1.pool == pool_key
                &&& pr.1.nullifier == nullifier
                &&& pr.1.output_commitment == output_commitment
                &&& pr.1.merkle_root == final(pool).merkle_root
                &&& pr.1.timestamp == now
            },
            Err(e) => {
                &&& withdraw_err(
                    *old(pool),
                    nullifier@,
                    merkle_proof@,
                    merkle_path_indices,
                    withdrawal_proof@,
                    output_commitment@,
                ) == Some(e)
                &&& *final(pool) == *old(pool)
            },
        },
{
    if !pool.is_active {
        return Err(ErrorCode::PoolNotActive);
    }
    if is_nullifier_used(pool, &nullifier) {
        return Err(ErrorCode::NullifierAlreadyUsed);
    }
    if !verify_merkle_proof(&pool.merkle_root, merkle_proof, merkle_path_indices, &nullifier) {
        return Err(ErrorCode::InvalidMerkleProof);
    }
    if withdrawal_proof.len() < 256 {
        return Err(ErrorCode::InvalidWithdrawalProof);
    }
    if !verify_withdrawal_proof(
        &nullifier,
        &output_commitment,
        &pool.merkle_root,
        withdrawal_proof.as_slice(),
    ) {
        return Err(ErrorCode::InvalidWithdrawalProof);
    }
    let record = NullifierRecord { pool: pool_key, nullifier, spent_at: now };
    pool.nullifiers.push(nullifier);
    pool.nullifier_count = pool.nullifier_count + 1;
    if !crate::bytes::is_zero32(&output_commitment) {
        let new_root = insert_note_to_merkle_tree(
            &pool.merkle_root,
            &output_commitment,
            pool.next_note_index,
        );
        pool.merkle_root = new_root;
        pool.next_note_index = pool.next_note_index + 1;
    }
    proof {
        let j = pool.nullifiers@.len() - 1;
        assert(pool.nullifiers@[j]@ == nullifier@);
    }
    let event = ShieldedWithdraw {
        pool: pool_key,
        nullifier,
        output_commitment,
        merkle_root: pool.merkle_root,
        timestamp: now,
    };
    Ok((record, event))
}

/// The error, if any, that `claim_shielded_rewards` surfaces for these
/// inputs.
pub open spec fn claim_rewards_err(
    p: ShieldedPool,
    stake_nullifier: Seq<u8>,
    siblings: Seq<[u8; 32]>,
    path_indices: u8,
    reward_proof: Seq<u8>,
    new_note_commitment: Seq<u8>,
    now: i64,
) -> Option<ErrorCode> {
    if !p.is_active {
        Some(ErrorCode::PoolNotActive)
    } else if nullifier_spent(p, stake_nullifier) {
        Some(ErrorCode::NullifierAlreadyUsed)
    } else if !spec_merkle_proof_ok(p.merkle_root@, siblings, path_indices, stake_nullifier) {
        Some(ErrorCode::InvalidMerkleProof)
    } else if reward_proof.len() < 256 {
        Some(ErrorCode::InvalidRewardProof)
    } else if !spec_reward_proof_ok(
        stake_nullifier,
        new_note_commitment,
        p.reward_rate_bps,
        now,
        reward_proof,
    ) {
        Some(ErrorCode::InvalidRewardProof)
    } else {
        None
    }
}

/// Claim staking rewards: consume the stake note by its nullifier (same
/// exclusivity and membership checks as withdrawal), validate the reward
/// proof against the pool's rate and the current time, and insert the new
/// note holding stake plus rewards. No amount appears anywhere.
pub fn claim_shielded_rewards(
    pool: &mut ShieldedPool,
    pool_key: [u8; 32],
    stake_nullifier: [u8; 32],
    merkle_proof: &[[u8; 32]; 8],
    merkle_path_indices: u8,
    reward_proof: &Vec<u8>,
    new_note_commitment: [u8; 32],
    now: i64,
) -> (r: Result<(NullifierRecord, ShieldedRewardsClaimed), ErrorCode>)
    requires
        pool_wf(*old(pool)),
        old(pool).nullifier_count < u32::MAX,
        old(pool).next_note_index < u32::MAX,
        0 <= now,
    ensures
        pool_wf(*final(pool)),
        match r {
            Ok(pr) => {
                &&& claim_rewards_err(
                    *old(pool),
                    stake_nullifier@,
                    merkle_proof@,
                    merkle_path_indices,
                    reward_proof@,
                    new_note_commitment@,
                    now,
                ) is None
                &&& pr.0.pool == pool_key
                &&& pr.0.nullifier == stake_nullifier
                &&& pr.0.spent_at == now
                &&& final(pool).nullifiers@ == old(pool).nullifiers@.push(stake_nullifier)
                &&& final(pool).nullifier_count == old(pool).nullifier_count + 1
                &&& nullifier_spent(*final(pool), stake_nullifier@)
                &&& final(pool).merkle_root@ == spec_merkle_insert(
                    old(pool).merkle_root@,
                    new_note_commitment@,
                    old(pool).next_note_index,
                )
                &&& final(pool).next_note_index == old(pool).next_note_index + 1
                &&& final(pool).total_notes == old(pool).total_notes
                &&& final(pool).pool_id == old(pool).pool_id
                &&& final(pool).creator == old(pool).creator
                &&& final(pool).reward_rate_bps == old(pool).reward_rate_bps
                &&& final(pool).lockup_epochs == old(pool).lockup_epochs
                &&& final(pool).created_at == old(pool).created_at
                &&& final(pool).is_active == old(pool).is_active
                &&& pr.1.pool == pool_key
                &&& pr.1.stake_nullifier == stake_nullifier
                &&& pr.1.new_note_commitment == new_note_commitment
                &&& pr.1.merkle_root == final(pool).merkle_root
                &&& pr.1.timestamp == now
            },
            Err(e) => {
                &&& claim_rewards_err(
                    *old(pool),
                    stake_nullifier@,
                    merkle_proof@,
                    merkle_path_indices,
                    reward_proof@,
                    new_note_commitment@,
                    now,
                ) == Some(e)
                &&& *final(pool) == *old(pool)
            },
        },
{
    if !pool.is_active {
        return Err(ErrorCode::PoolNotActive);
    }
    if is_nullifier_used(pool, &stake_nullifier) {
        return Err(ErrorCode::NullifierAlreadyUsed);
    }
    if !verify_merkle_proof(&pool.merkle_root, merkle_proof, merkle_path_indices, &stake_nullifier)
        {
        return Err(ErrorCode::InvalidMerkleProof);
    }
    if reward_proof.len() < 256 {
        return Err(ErrorCode::InvalidRewardProof);
    }
    if !verify_reward_proof(
        &stake_nullifier,
        &new_note_commitment,
        pool.reward_rate_bps,
        now,
        reward_proof.as_slice(),
    ) {
        return Err(ErrorCode::InvalidRewardProof);
    }
    let record = NullifierRecord { pool: pool_key, nullifier: stake_nullifier, spent_at: now };
    pool.nullifiers.push(stake_nullifier);
    pool.nullifier_count = pool.nullifier_count + 1;
    let new_root = insert_note_to_merkle_tree(
        &pool.merkle_root,
        &new_note_commitment,
        pool.next_note_index,
    );
    pool.merkle_root = new_root;
    pool.next_note_index = pool.next_note_index + 1;
    proof {
        let j = pool.nullifiers@.len() - 1;
        assert(pool.nullifiers@[j]@ == stake_nullifier@);
    }
    let event = ShieldedRewardsClaimed {
        pool: pool_key,
        stake_nullifier,
        new_note_commitment,
        merkle_root: new_root,
        timestamp: now,
    };
    Ok((record, event))
}

} // verus!

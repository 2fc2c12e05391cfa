use veil_protocol::errors::ErrorCode;
use veil_protocol::hash::compute_proof_hash;
use veil_protocol::pool::{
    claim_shielded_rewards, create_shielded_pool, insert_note_to_merkle_tree, is_nullifier_used,
    shield_deposit, shield_withdraw, verify_merkle_proof,
};

const POOL_KEY: [u8; 32] = [0xD1u8; 32];
const CREATOR: [u8; 32] = [0xD2u8; 32];

/// Keccak-256 of arbitrary bytes, through the library's audit-hash
/// function with no public signals appended.
fn keccak(data: &[u8]) -> [u8; 32] {
    compute_proof_hash(&data.to_vec(), &Vec::new())
}

/// Fold a leaf with eight siblings in path order, independently of the
/// library's own Merkle verifier.
fn fold(leaf: [u8; 32], siblings: &[[u8; 32]; 8], path: u8) -> [u8; 32] {
    let mut current = leaf;
    for (i, sibling) in siblings.iter().enumerate() {
        let mut data = Vec::new();
        if (path >> i) & 1 == 1 {
            data.extend_from_slice(sibling);
            data.extend_from_slice(&current);
        } else {
            data.extend_from_slice(&current);
            data.extend_from_slice(sibling);
        }
        current = keccak(&data);
    }
    current
}

fn siblings() -> [[u8; 32]; 8] {
    let mut s = [[0u8; 32]; 8];
    for (i, sibling) in s.iter_mut().enumerate() {
        *sibling = [(i as u8) + 1; 32];
    }
    s
}

#[test]
fn create_pool_starts_empty() {
    let (pool, ev) = create_shielded_pool(POOL_KEY, CREATOR, [0x01u8; 32], 500, 4, 1000).unwrap();
    assert_eq!(pool.merkle_root, [0u8; 32]);
    assert_eq!(pool.next_note_index, 0);
    assert_eq!(pool.total_notes, 0);
    assert_eq!(pool.nullifier_count, 0);
    assert!(pool.is_active);
    assert_eq!(ev.reward_rate_bps, 500);
    assert_eq!(ev.lockup_epochs, 4);
}

#[test]
fn create_pool_validates_configuration() {
    let r = create_shielded_pool(POOL_KEY, CREATOR, [0x01u8; 32], 10001, 4, 1000);
    assert_eq!(r.unwrap_err(), ErrorCode::InvalidRewardRate);
    let r = create_shielded_pool(POOL_KEY, CREATOR, [0x01u8; 32], 500, 0, 1000);
    assert_eq!(r.unwrap_err(), ErrorCode::InvalidLockupPeriod);
    let r = create_shielded_pool(POOL_KEY, CREATOR, [0x01u8; 32], 500, 53, 1000);
    assert_eq!(r.unwrap_err(), ErrorCode::InvalidLockupPeriod);
}

#[test]
fn merkle_insert_matches_transcript_hash() {
    let root = [0x05u8; 32];
    let commitment = [0x06u8; 32];
    let index: u32 = 9;
    let mut data = Vec::new();
    data.extend_from_slice(&root);
    data.extend_from_slice(&commitment);
    data.extend_from_slice(&index.to_le_bytes());
    assert_eq!(insert_note_to_merkle_tree(&root, &commitment, index), keccak(&data));
}

#[test]
fn deposit_scenario_roots_chain() {
    // Two deposits into an empty pool: the second root must equal
    // H(first_root ‖ second_commitment ‖ le(1)).
    let (mut pool, _) =
        create_shielded_pool(POOL_KEY, CREATOR, [0x01u8; 32], 500, 4, 1000).unwrap();
    let r0 = pool.merkle_root;
    let c1 = [0x07u8; 32];
    let c2 = [0x09u8; 32];
    let payload = [0x0Au8; 64];
    let range_proof = vec![1u8; 64];

    let (note1, ev1) =
        shield_deposit(&mut pool, POOL_KEY, c1, payload, &range_proof, 1001).unwrap();
    assert_eq!(note1.note_index, 0);
    let r1 = pool.merkle_root;
    assert_eq!(ev1.merkle_root, r1);
    assert_eq!(r1, insert_note_to_merkle_tree(&r0, &c1, 0));

    let (note2, ev2) =
        shield_deposit(&mut pool, POOL_KEY, c2, payload, &range_proof, 1002).unwrap();
    assert_eq!(note2.note_index, 1);
    let r2 = pool.merkle_root;
    assert_eq!(ev2.merkle_root, r2);

    let mut data = Vec::new();
    data.extend_from_slice(&r1);
    data.extend_from_slice(&c2);
    data.extend_from_slice(&1u32.to_le_bytes());
    assert_eq!(r2, keccak(&data));

    assert_eq!(pool.next_note_index, 2);
    assert_eq!(pool.total_notes, 2);

    // Replay determinism: the same two insertions from the same start
    // give the same roots.
    let r1_again = insert_note_to_merkle_tree(&r0, &c1, 0);
    let r2_again = insert_note_to_merkle_tree(&r1_again, &c2, 1);
    assert_eq!(r2, r2_again);
}

#[test]
fn deposit_guards() {
    let (mut pool, _) =
        create_shielded_pool(POOL_KEY, CREATOR, [0x01u8; 32], 500, 4, 1000).unwrap();
    let payload = [0x0Au8; 64];
    // A short range proof is refused.
    let r = shield_deposit(&mut pool, POOL_KEY, [0x07u8; 32], payload, &vec![1u8; 63], 1001);
    assert_eq!(r.unwrap_err(), ErrorCode::InvalidRangeProof);
    // A zero commitment is refused.
    let r = shield_deposit(&mut pool, POOL_KEY, [0u8; 32], payload, &vec![1u8; 64], 1001);
    assert_eq!(r.unwrap_err(), ErrorCode::InvalidRangeProof);
    // A proof whose first 32 bytes are all zero is refused.
    let r = shield_deposit(&mut pool, POOL_KEY, [0x07u8; 32], payload, &vec![0u8; 64], 1001);
    assert_eq!(r.unwrap_err(), ErrorCode::InvalidRangeProof);
    // An inactive pool takes no deposits.
    pool.is_active = false;
    let r = shield_deposit(&mut pool, POOL_KEY, [0x07u8; 32], payload, &vec![1u8; 64], 1001);
    assert_eq!(r.unwrap_err(), ErrorCode::PoolNotActive);
    // A full pool takes no deposits.
    pool.is_active = true;
    pool.next_note_index = 256;
    pool.total_notes = 256;
    let r = shield_deposit(&mut pool, POOL_KEY, [0x07u8; 32], payload, &vec![1u8; 64], 1001);
    assert_eq!(r.unwrap_err(), ErrorCode::PoolFull);
}

#[test]
fn merkle_proof_verifies_against_fold() {
    let leaf = [0x07u8; 32];
    let s = siblings();
    let path: u8 = 0b1011_0010;
    let root = fold(leaf, &s, path);
    assert!(verify_merkle_proof(&root, &s, path, &leaf));
    // A different path or a different root is refused.
    assert!(!verify_merkle_proof(&root, &s, path ^ 1, &leaf));
    assert!(!verify_merkle_proof(&[0u8; 32], &s, path, &leaf));
}

#[test]
fn withdraw_records_nullifier_exactly_once() {
    // A nullifier spends once; the second attempt with the same value
    // fails with the double-spend error and changes nothing.
    let nullifier = [0x07u8; 32];
    let s = siblings();
    let path: u8 = 0;
    let root = fold(nullifier, &s, path);
    let (mut pool, _) =
        create_shielded_pool(POOL_KEY, CREATOR, [0x01u8; 32], 500, 4, 1000).unwrap();
    pool.merkle_root = root;
    let proof = vec![0u8; 256];

    assert!(!is_nullifier_used(&pool, &nullifier));
    let (record, ev) =
        shield_withdraw(&mut pool, POOL_KEY, nullifier, &s, path, &proof, [0u8; 32], 1001)
            .unwrap();
    assert_eq!(record.nullifier, nullifier);
    assert_eq!(record.spent_at, 1001);
    assert_eq!(pool.nullifier_count, 1);
    assert!(is_nullifier_used(&pool, &nullifier));
    // Full withdrawal (zero output commitment): the root is unchanged.
    assert_eq!(pool.merkle_root, root);
    assert_eq!(ev.merkle_root, root);

    let again =
        shield_withdraw(&mut pool, POOL_KEY, nullifier, &s, path, &proof, [0u8; 32], 1002);
    assert_eq!(again.unwrap_err(), ErrorCode::NullifierAlreadyUsed);
    assert_eq!(pool.nullifier_count, 1);
}

#[test]
fn partial_withdraw_inserts_change_note() {
    let nullifier = [0x08u8; 32];
    let s = siblings();
    let path: u8 = 0b0000_0101;
    let root = fold(nullifier, &s, path);
    let (mut pool, _) =
        create_shielded_pool(POOL_KEY, CREATOR, [0x01u8; 32], 500, 4, 1000).unwrap();
    pool.merkle_root = root;
    pool.next_note_index = 2;
    pool.total_notes = 2;
    let change = [0x0Bu8; 32];
    let proof = vec![0u8; 256];

    let (_, ev) =
        shield_withdraw(&mut pool, POOL_KEY, nullifier, &s, path, &proof, change, 1001).unwrap();
    assert_eq!(pool.merkle_root, insert_note_to_merkle_tree(&root, &change, 2));
    assert_eq!(pool.next_note_index, 3);
    assert_eq!(pool.total_notes, 2);
    assert_eq!(ev.output_commitment, change);
}

#[test]
fn withdraw_guards() {
    let nullifier = [0x07u8; 32];
    let s = siblings();
    let path: u8 = 0;
    let root = fold(nullifier, &s, path);
    let (mut pool, _) =
        create_shielded_pool(POOL_KEY, CREATOR, [0x01u8; 32], 500, 4, 1000).unwrap();
    pool.merkle_root = root;
    // A membership proof that does not reach the root is refused.
    let r = shield_withdraw(
        &mut pool,
        POOL_KEY,
        nullifier,
        &s,
        path ^ 1,
        &vec![0u8; 256],
        [0u8; 32],
        1001,
    );
    assert_eq!(r.unwrap_err(), ErrorCode::InvalidMerkleProof);
    // A short withdrawal proof is refused.
    let r = shield_withdraw(&mut pool, POOL_KEY, nullifier, &s, path, &vec![0u8; 100], [0u8; 32], 1001);
    assert_eq!(r.unwrap_err(), ErrorCode::InvalidWithdrawalProof);
    // A proof whose points are not field elements is refused.
    let r = shield_withdraw(
        &mut pool,
        POOL_KEY,
        nullifier,
        &s,
        path,
        &vec![0xFFu8; 256],
        [0u8; 32],
        1001,
    );
    assert_eq!(r.unwrap_err(), ErrorCode::InvalidWithdrawalProof);
    // An inactive pool takes no withdrawals.
    pool.is_active = false;
    let r = shield_withdraw(&mut pool, POOL_KEY, nullifier, &s, path, &vec![0u8; 256], [0u8; 32], 1001);
    assert_eq!(r.unwrap_err(), ErrorCode::PoolNotActive);
    assert_eq!(pool.nullifier_count, 0);
}

#[test]
fn claim_rewards_consumes_stake_and_inserts_new_note() {
    let stake_nullifier = [0x0Cu8; 32];
    let s = siblings();
    let path: u8 = 0b0000_0011;
    let root = fold(stake_nullifier, &s, path);
    let (mut pool, _) =
        create_shielded_pool(POOL_KEY, CREATOR, [0x01u8; 32], 500, 4, 1000).unwrap();
    pool.merkle_root = root;
    pool.next_note_index = 1;
    pool.total_notes = 1;
    let new_note = [0x0Du8; 32];
    let proof = vec![0u8; 256];

    let (record, ev) = claim_shielded_rewards(
        &mut pool,
        POOL_KEY,
        stake_nullifier,
        &s,
        path,
        &proof,
        new_note,
        1001,
    )
    .unwrap();
    assert_eq!(record.nullifier, stake_nullifier);
    assert_eq!(pool.nullifier_count, 1);
    assert_eq!(pool.merkle_root, insert_note_to_merkle_tree(&root, &new_note, 1));
    assert_eq!(pool.next_note_index, 2);
    assert_eq!(ev.new_note_commitment, new_note);

    // The same stake nullifier cannot be claimed twice.
    let again = claim_shielded_rewards(
        &mut pool,
        POOL_KEY,
        stake_nullifier,
        &s,
        path,
        &proof,
        new_note,
        1002,
    );
    assert_eq!(again.unwrap_err(), ErrorCode::NullifierAlreadyUsed);
}

#[test]
fn claim_rewards_guards() {
    let stake_nullifier = [0x0Cu8; 32];
    let s = siblings();
    let path: u8 = 0;
    let root = fold(stake_nullifier, &s, path);
    let (mut pool, _) =
        create_shielded_pool(POOL_KEY, CREATOR, [0x01u8; 32], 500, 4, 1000).unwrap();
    pool.merkle_root = root;
    // A short reward proof is refused.
    let r = claim_shielded_rewards(
        &mut pool,
        POOL_KEY,
        stake_nullifier,
        &s,
        path,
        &vec![0u8; 100],
        [0x0Du8; 32],
        1001,
    );
    assert_eq!(r.unwrap_err(), ErrorCode::InvalidRewardProof);
    // A bad membership proof is refused.
    let r = claim_shielded_rewards(
        &mut pool,
        POOL_KEY,
        stake_nullifier,
        &s,
        path ^ 1,
        &vec![0u8; 256],
        [0x0Du8; 32],
        1001,
    );
    assert_eq!(r.unwrap_err(), ErrorCode::InvalidMerkleProof);
}

//! Structural proof validation shared by every subsystem: Groth16-style
//! blob decomposition with field-element range checks, and the hash-based
//! liveness checks that stand in for a pluggable cryptographic verifier.

use vstd::prelude::*;
use crate::bytes::{push_bytes, zero32};
use crate::field::is_field_element;
use crate::field::verify_field_element;
use crate::hash::{keccak_of, keccak256};

verus! {

/// Proof kinds the protocol recognises; consumed only by the audit layer.
#[derive(Clone, Copy, Debug, PartialEq, Eq, Structural)]
pub enum ProofType {
    Groth16,
    Bulletproof,
    Poseidon,
}

/// The sum of the bytes of a string, as an unbounded integer.
pub open spec fn byte_sum(s: Seq<u8>) -> int
    decreases s.len(),
{
    if s.len() == 0 {
        0
    } else {
        byte_sum(s.drop_last()) + s.last()
    }
}

/// A Groth16-style blob is well-formed when it is at least 256 bytes and
/// the four 32-byte coordinates of `piA` and `piC` are valid field elements.
pub open spec fn groth16_points_valid(proof: Seq<u8>) -> bool {
    &&& is_field_element(proof.subrange(0, 32))
    &&& is_field_element(proof.subrange(32, 64))
    &&& is_field_element(proof.subrange(192, 224))
    &&& is_field_element(proof.subrange(224, 256))
}

/// The range-proof acceptance predicate for deposits: non-zero commitment,
/// at least 64 proof bytes with a non-trivial head, and a live audit hash.
pub open spec fn spec_range_proof_ok(commitment: Seq<u8>, proof: Seq<u8>) -> bool {
    &&& commitment != zero32()
    &&& proof.len() >= 64
    &&& byte_sum(proof.subrange(0, 32)) != 0
    &&& (keccak_of(commitment + proof)[0] != 0 || keccak_of(commitment + proof)[1] != 0)
}

/// The withdrawal-proof acceptance predicate: a well-formed Groth16 blob
/// whose audit hash over nullifier, output commitment and root is live.
pub open spec fn spec_withdrawal_proof_ok(
    nullifier: Seq<u8>,
    output_commitment: Seq<u8>,
    merkle_root: Seq<u8>,
    proof: Seq<u8>,
) -> bool {
    &&& proof.len() >= 256
    &&& groth16_points_valid(proof)
    &&& keccak_of(nullifier + output_commitment + merkle_root + proof)[0] != 0xFF
}

/// The reward-proof acceptance predicate: the audit hash binds the stake
/// nullifier, the new note, the pool's reward rate and the current time.
pub open spec fn spec_reward_proof_ok(
    stake_nullifier: Seq<u8>,
    new_note_commitment: Seq<u8>,
    reward_rate_bps: u16,
    current_time: i64,
    proof: Seq<u8>,
) -> bool {
    &&& proof.len() >= 256
    &&& keccak_of(
        stake_nullifier + new_note_commitment + vstd::bytes::spec_u16_to_le_bytes(reward_rate_bps)
            + vstd::bytes::spec_u64_to_le_bytes(current_time as u64) + proof,
    )[0] != 0xFF
}

/// The nullifier-derivation acceptance predicate for legacy unstaking.
pub open spec fn spec_nullifier_derivation_ok(
    stake_commitment: Seq<u8>,
    nullifier: Seq<u8>,
    proof: Seq<u8>,
) -> bool {
    &&& proof.len() >= 256
    &&& keccak_of(stake_commitment + nullifier + proof)[0] != 0xFF
}

/// The legacy reward-claim acceptance predicate: the audit hash binds the
/// stake commitment, the rate, the stake time and the current time.
pub open spec fn spec_reward_claim_proof_ok(
    stake_commitment: Seq<u8>,
    reward_rate_bps: u16,
    staked_at: i64,
    current_time: i64,
    proof: Seq<u8>,
) -> bool {
    &&& proof.len() >= 256
    &&& keccak_of(
        stake_commitment + vstd::bytes::spec_u16_to_le_bytes(reward_rate_bps)
            + vstd::bytes::spec_u64_to_le_bytes(staked_at as u64)
            + vstd::bytes::spec_u64_to_le_bytes(current_time as u64) + proof,
    )[0] != 0xFF
}

/// The reward commitment surfaced in legacy claim events: the first 32
/// proof bytes, or the digest of a shorter proof.
pub open spec fn spec_reward_commitment(proof: Seq<u8>) -> Seq<u8> {
    if proof.len() >= 32 {
        proof.subrange(0, 32)
    } else {
        keccak_of(proof)
    }
}

/// Check the four field-element coordinates of a Groth16-style blob.
pub fn check_groth16_points(proof: &[u8]) -> (r: bool)
    requires
        proof@.len() >= 256,
    ensures
        r == groth16_points_valid(proof@),
{
    let a0 = vstd::slice::slice_subrange(proof, 0, 32);
    let a1 = vstd::slice::slice_subrange(proof, 32, 64);
    let c0 = vstd::slice::slice_subrange(proof, 192, 224);
    let c1 = vstd::slice::slice_subrange(proof, 224, 256);
    verify_field_element(a0) && verify_field_element(a1) && verify_field_element(c0)
        && verify_field_element(c1)
}

/// Sum the first 32 bytes of a slice.
fn sum_first_32(proof: &[u8]) -> (r: u32)
    requires
        proof@.len() >= 32,
    ensures
        r == byte_sum(proof@.subrange(0, 32)),
{
    let mut sum: u32 = 0;
    for i in 0..32usize
        invariant
            proof@.len() >= 32,
            sum == byte_sum(proof@.subrange(0, i as int)),
            sum <= i * 255,
    {
        proof {
            assert(proof@.subrange(0, i as int + 1).drop_last() =~= proof@.subrange(0, i as int));
        }
        sum = sum + proof[i] as u32;
    }
    sum
}

/// Verify the structure of a deposit range proof against its commitment.
pub fn verify_range_proof(commitment: &[u8; 32], proof: &[u8]) -> (r: bool)
    ensures
        r == spec_range_proof_ok(commitment@, proof@),
{
    if crate::bytes::is_zero32(commitment) {
        return false;
    }
    if proof.len() < 64 {
        return false;
    }
    if sum_first_32(proof) == 0 {
        return false;
    }
    let mut data: Vec<u8> = Vec::new();
    push_bytes(&mut data, commitment.as_slice());
    push_bytes(&mut data, proof);
    let h = keccak256(&data);
    h[0] != 0 || h[1] != 0
}

/// Verify a withdrawal proof against the nullifier, output commitment and
/// current Merkle root.
pub fn verify_withdrawal_proof(
    nullifier: &[u8; 32],
    output_commitment: &[u8; 32],
    merkle_root: &[u8; 32],
    proof: &[u8],
) -> (r: bool)
    ensures
        r == spec_withdrawal_proof_ok(nullifier@, output_commitment@, merkle_root@, proof@),
{
    if proof.len() < 256 {
        return false;
    }
    if !check_groth16_points(proof) {
        return false;
    }
    let mut data: Vec<u8> = Vec::new();
    push_bytes(&mut data, nullifier.as_slice());
    push_bytes(&mut data, output_commitment.as_slice());
    push_bytes(&mut data, merkle_root.as_slice());
    push_bytes(&mut data, proof);
    let h = keccak256(&data);
    h[0] != 0xFF
}

/// Verify a reward-calculation proof for the shielded pool.
pub fn verify_reward_proof(
    stake_nullifier: &[u8; 32],
    new_note_commitment: &[u8; 32],
    reward_rate_bps: u16,
    current_time: i64,
    proof: &[u8],
) -> (r: bool)
    requires
        current_time >= 0,
    ensures
        r == spec_reward_proof_ok(
            stake_nullifier@,
            new_note_commitment@,
            reward_rate_bps,
            current_time,
            proof@,
        ),
{
    if proof.len() < 256 {
        return false;
    }
    let mut data: Vec<u8> = Vec::new();
    push_bytes(&mut data, stake_nullifier.as_slice());
    push_bytes(&mut data, new_note_commitment.as_slice());
    let rate_bytes = vstd::bytes::u16_to_le_bytes(reward_rate_bps);
    push_bytes(&mut data, rate_bytes.as_slice());
    let time_bytes = vstd::bytes::u64_to_le_bytes(current_time as u64);
    push_bytes(&mut data, time_bytes.as_slice());
    push_bytes(&mut data, proof);
    let h = keccak256(&data);
    h[0] != 0xFF
}

/// Verify that a nullifier is correctly derived from a stake commitment.
pub fn verify_nullifier_derivation(
    stake_commitment: &[u8; 32],
    nullifier: &[u8; 32],
    proof: &[u8],
) -> (r: bool)
    ensures
        r == spec_nullifier_derivation_ok(stake_commitment@, nullifier@, proof@),
{
    if proof.len() < 256 {
        return false;
    }
    let mut data: Vec<u8> = Vec::new();
    push_bytes(&mut data, stake_commitment.as_slice());
    push_bytes(&mut data, nullifier.as_slice());
    push_bytes(&mut data, proof);
    let h = keccak256(&data);
    h[0] != 0xFF
}

/// Verify a legacy reward-claim proof.
pub fn verify_reward_claim_proof(
    stake_commitment: &[u8; 32],
    reward_rate_bps: u16,
    staked_at: i64,
    current_time: i64,
    proof: &[u8],
) -> (r: bool)
    requires
        staked_at >= 0,
        current_time >= 0,
    ensures
        r == spec_reward_claim_proof_ok(
            stake_commitment@,
            reward_rate_bps,
            staked_at,
            current_time,
            proof@,
        ),
{
    if proof.len() < 256 {
        return false;
    }
    let mut data: Vec<u8> = Vec::new();
    push_bytes(&mut data, stake_commitment.as_slice());
    let rate_bytes = vstd::bytes::u16_to_le_bytes(reward_rate_bps);
    push_bytes(&mut data, rate_bytes.as_slice());
    let staked_bytes = vstd::bytes::u64_to_le_bytes(staked_at as u64);
    push_bytes(&mut data, staked_bytes.as_slice());
    let time_bytes = vstd::bytes::u64_to_le_bytes(current_time as u64);
    push_bytes(&mut data, time_bytes.as_slice());
    push_bytes(&mut data, proof);
    let h = keccak256(&data);
    h[0] != 0xFF
}

/// Compute the reward commitment surfaced in legacy claim events.
pub fn compute_reward_commitment(proof: &Vec<u8>) -> (r: [u8; 32])
    ensures
        r@ == spec_reward_commitment(proof@),
{
    if proof.len() >= 32 {
        let mut result = [0u8; 32];
        for i in 0..32usize
            invariant
                proof@.len() >= 32,
                result@.len() == 32,
                forall|j: int| 0 <= j < i ==> result@[j] == proof@[j],
        {
            result[i] = proof[i];
        }
        proof {
            assert(result@ =~= proof@.subrange(0, 32));
        }
        result
    } else {
        keccak256(proof)
    }
}

} // verus!

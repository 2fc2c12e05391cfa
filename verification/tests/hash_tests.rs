use veil_protocol::hash::{compute_proof_hash, compute_vote_commitment, hash_public_signals};
use veil_protocol::staking::compute_stake_commitment;

/// Keccak-256 of arbitrary bytes, through the library's audit-hash
/// function with no public signals appended.
fn keccak(data: &[u8]) -> [u8; 32] {
    compute_proof_hash(&data.to_vec(), &Vec::new())
}

#[test]
fn keccak_of_empty_input_matches_known_digest() {
    // The published Keccak-256 digest of the empty string.
    let expected: [u8; 32] = [
        0xc5, 0xd2, 0x46, 0x01, 0x86, 0xf7, 0x23, 0x3c, 0x92, 0x7e, 0x7d, 0xb2, 0xdc, 0xc7, 0x03,
        0xc0, 0xe5, 0x00, 0xb6, 0x53, 0xca, 0x82, 0x27, 0x3b, 0x7b, 0xfa, 0xd8, 0x04, 0x5d, 0x85,
        0xa4, 0x70,
    ];
    assert_eq!(keccak(&[]), expected);
    assert_eq!(hash_public_signals(&Vec::new()), expected);
}

#[test]
fn keccak_does_not_echo_its_input() {
    let input = [0x11u8; 32];
    let digest = keccak(&input);
    assert_ne!(digest, input);
    // Deterministic across calls.
    assert_eq!(digest, keccak(&input));
}

#[test]
fn vote_commitment_is_hash_of_choice_secret_voter() {
    let secret = [0x22u8; 32];
    let voter = [0x33u8; 32];
    let mut preimage = vec![1u8];
    preimage.extend_from_slice(&secret);
    preimage.extend_from_slice(&voter);
    assert_eq!(compute_vote_commitment(true, &secret, &voter), keccak(&preimage));

    let mut preimage_no = vec![0u8];
    preimage_no.extend_from_slice(&secret);
    preimage_no.extend_from_slice(&voter);
    assert_eq!(compute_vote_commitment(false, &secret, &voter), keccak(&preimage_no));
    assert_ne!(
        compute_vote_commitment(true, &secret, &voter),
        compute_vote_commitment(false, &secret, &voter)
    );
}

#[test]
fn proof_hash_appends_signals_to_proof() {
    let proof = vec![0xABu8; 16];
    let s1 = [0x01u8; 32];
    let s2 = [0x02u8; 32];
    let mut flat = proof.clone();
    flat.extend_from_slice(&s1);
    flat.extend_from_slice(&s2);
    assert_eq!(compute_proof_hash(&proof, &vec![s1, s2]), keccak(&flat));
}

#[test]
fn signals_hash_flattens_in_order() {
    let s1 = [0x01u8; 32];
    let s2 = [0x02u8; 32];
    let mut flat = Vec::new();
    flat.extend_from_slice(&s1);
    flat.extend_from_slice(&s2);
    assert_eq!(hash_public_signals(&vec![s1, s2]), keccak(&flat));
    assert_ne!(hash_public_signals(&vec![s1, s2]), hash_public_signals(&vec![s2, s1]));
}

#[test]
fn stake_commitment_binds_amount_validator_staker_secret() {
    let amount: u64 = 5_000_000;
    let validator = [0x44u8; 32];
    let staker = [0x55u8; 32];
    let secret = [0x66u8; 32];
    let mut preimage = amount.to_le_bytes().to_vec();
    preimage.extend_from_slice(&validator);
    preimage.extend_from_slice(&staker);
    preimage.extend_from_slice(&secret);
    assert_eq!(
        compute_stake_commitment(amount, &validator, &staker, &secret),
        keccak(&preimage)
    );
}

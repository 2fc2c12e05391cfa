use veil_protocol::errors::ErrorCode;
use veil_protocol::identity::{
    cancel_recovery, execute_recovery, initialize_commitment, initiate_recovery, submit_proof,
};

const WALLET_KEY: [u8; 32] = [0xAAu8; 32];
const OWNER: [u8; 32] = [0xBBu8; 32];

#[test]
fn initialize_commitment_records_fields() {
    let commitment = [0x01u8; 32];
    let (account, event) = initialize_commitment(WALLET_KEY, OWNER, commitment, 1000);
    assert_eq!(account.commitment, commitment);
    assert_eq!(account.owner, OWNER);
    assert_eq!(account.created_at, 1000);
    assert!(!account.recovery_active);
    assert_eq!(event.wallet, WALLET_KEY);
    assert_eq!(event.commitment, commitment);
    assert_eq!(event.timestamp, 1000);
}

#[test]
fn submit_proof_accepts_well_formed_proof() {
    let commitment = [0x01u8; 32];
    let (account, _) = initialize_commitment(WALLET_KEY, OWNER, commitment, 1000);
    let proof = vec![0u8; 256];
    let signals = vec![commitment];
    let event = submit_proof(&account, WALLET_KEY, &proof, &signals, 2000).unwrap();
    assert_eq!(event.wallet, WALLET_KEY);
    assert_eq!(event.timestamp, 2000);
}

#[test]
fn submit_proof_rejects_short_blob() {
    let (account, _) = initialize_commitment(WALLET_KEY, OWNER, [0x01u8; 32], 1000);
    let r = submit_proof(&account, WALLET_KEY, &vec![0u8; 100], &vec![[0x01u8; 32]], 2000);
    assert_eq!(r.unwrap_err(), ErrorCode::InvalidProofStructure);
}

#[test]
fn submit_proof_rejects_missing_signals() {
    let (account, _) = initialize_commitment(WALLET_KEY, OWNER, [0x01u8; 32], 1000);
    let r = submit_proof(&account, WALLET_KEY, &vec![0u8; 256], &Vec::new(), 2000);
    assert_eq!(r.unwrap_err(), ErrorCode::InvalidProof);
}

#[test]
fn submit_proof_rejects_out_of_field_point() {
    let (account, _) = initialize_commitment(WALLET_KEY, OWNER, [0x01u8; 32], 1000);
    let mut proof = vec![0u8; 256];
    for i in 0..32 {
        proof[i] = 0xFF;
    }
    let r = submit_proof(&account, WALLET_KEY, &proof, &vec![[0x01u8; 32]], 2000);
    assert_eq!(r.unwrap_err(), ErrorCode::InvalidProofPoint);
}

#[test]
fn submit_proof_rejects_out_of_field_signal() {
    let (account, _) = initialize_commitment(WALLET_KEY, OWNER, [0x01u8; 32], 1000);
    let signals = vec![[0x01u8; 32], [0xFFu8; 32]];
    let r = submit_proof(&account, WALLET_KEY, &vec![0u8; 256], &signals, 2000);
    assert_eq!(r.unwrap_err(), ErrorCode::InvalidPublicSignal);
}

#[test]
fn submit_proof_rejects_foreign_commitment() {
    let (account, _) = initialize_commitment(WALLET_KEY, OWNER, [0x01u8; 32], 1000);
    let r = submit_proof(&account, WALLET_KEY, &vec![0u8; 256], &vec![[0x02u8; 32]], 2000);
    assert_eq!(r.unwrap_err(), ErrorCode::CommitmentMismatch);
}

#[test]
fn recovery_timelock_scenario() {
    // Initiate recovery with a five-day timelock; executing immediately
    // fails, executing after five days of seconds succeeds.
    let t: i64 = 1_000_000;
    let (mut account, _) = initialize_commitment(WALLET_KEY, OWNER, [0x01u8; 32], t);
    let ev = initiate_recovery(&mut account, WALLET_KEY, OWNER, [0x02u8; 32], 5, t).unwrap();
    assert_eq!(ev.unlock_time, t + 5 * 86400);
    assert!(account.recovery_active);
    assert_eq!(account.recovery_unlock_at, t + 432_000);

    let early = execute_recovery(&mut account, WALLET_KEY, &vec![1u8; 64], t);
    assert_eq!(early.unwrap_err(), ErrorCode::TimelockNotExpired);
    assert!(account.recovery_active);

    let on_time = execute_recovery(&mut account, WALLET_KEY, &vec![1u8; 64], t + 432_000);
    assert!(on_time.is_ok());
    assert!(!account.recovery_active);
    assert_eq!(account.recovery_executed_at, t + 432_000);
}

#[test]
fn initiate_recovery_rejects_bad_timelock_and_double_start() {
    let (mut account, _) = initialize_commitment(WALLET_KEY, OWNER, [0x01u8; 32], 1000);
    let r = initiate_recovery(&mut account, WALLET_KEY, OWNER, [0x02u8; 32], 0, 1000);
    assert_eq!(r.unwrap_err(), ErrorCode::InvalidTimelockPeriod);
    let r = initiate_recovery(&mut account, WALLET_KEY, OWNER, [0x02u8; 32], 91, 1000);
    assert_eq!(r.unwrap_err(), ErrorCode::InvalidTimelockPeriod);
    initiate_recovery(&mut account, WALLET_KEY, OWNER, [0x02u8; 32], 90, 1000).unwrap();
    let r = initiate_recovery(&mut account, WALLET_KEY, OWNER, [0x03u8; 32], 5, 1000);
    assert_eq!(r.unwrap_err(), ErrorCode::RecoveryAlreadyActive);
}

#[test]
fn recovery_is_owner_only() {
    let stranger = [0xCCu8; 32];
    let (mut account, _) = initialize_commitment(WALLET_KEY, OWNER, [0x01u8; 32], 1000);
    let r = initiate_recovery(&mut account, WALLET_KEY, stranger, [0x02u8; 32], 5, 1000);
    assert_eq!(r.unwrap_err(), ErrorCode::Unauthorized);
    initiate_recovery(&mut account, WALLET_KEY, OWNER, [0x02u8; 32], 5, 1000).unwrap();
    let r = cancel_recovery(&mut account, WALLET_KEY, stranger, 1001);
    assert_eq!(r.unwrap_err(), ErrorCode::Unauthorized);
    assert!(account.recovery_active);
    cancel_recovery(&mut account, WALLET_KEY, OWNER, 1002).unwrap();
    assert!(!account.recovery_active);
}

#[test]
fn execute_recovery_needs_active_recovery_and_proof() {
    let (mut account, _) = initialize_commitment(WALLET_KEY, OWNER, [0x01u8; 32], 1000);
    let r = execute_recovery(&mut account, WALLET_KEY, &vec![1u8; 64], 2000);
    assert_eq!(r.unwrap_err(), ErrorCode::NoActiveRecovery);
    let r = cancel_recovery(&mut account, WALLET_KEY, OWNER, 2000);
    assert_eq!(r.unwrap_err(), ErrorCode::NoActiveRecovery);
    initiate_recovery(&mut account, WALLET_KEY, OWNER, [0x02u8; 32], 1, 1000).unwrap();
    let r = execute_recovery(&mut account, WALLET_KEY, &Vec::new(), 1000 + 86400);
    assert_eq!(r.unwrap_err(), ErrorCode::InvalidProof);
}

//! Identity commitment with time-locked social recovery: a per-owner
//! commitment record and the state machine
//! `Normal -> RecoveryPending -> Normal` (executed or cancelled).

use vstd::prelude::*;
use crate::bytes::{bytes32_eq, is_zero32, zero32};
use crate::errors::ErrorCode;
use crate::field::is_field_element;
use crate::hash::{
    compute_proof_hash,
    hash_public_signals,
    spec_proof_hash,
    spec_signals_hash,
};
use crate::proofs::ProofType;

verus! {

/// A wallet identity: a privacy-preserving commitment plus the recovery
/// state machine.
#[derive(Clone, Debug)]
pub struct WalletAccount {
    /// The privacy-preserving commitment (never reveals identity).
    pub commitment: [u8; 32],
    /// The wallet owner (can initiate and cancel recovery).
    pub owner: [u8; 32],
    /// When this wallet was created.
    pub created_at: i64,
    /// Recovery commitment (for time-locked recovery).
    pub recovery_commitment: [u8; 32],
    /// Whether recovery is currently active.
    pub recovery_active: bool,
    /// When recovery was initiated.
    pub recovery_initiated_at: i64,
    /// When recovery can be executed.
    pub recovery_unlock_at: i64,
    /// When recovery was executed (if applicable).
    pub recovery_executed_at: i64,
}

/// Event: a wallet commitment was created.
#[derive(Clone, Debug)]
pub struct CommitmentCreated {
    pub wallet: [u8; 32],
    pub commitment: [u8; 32],
    pub timestamp: i64,
}

/// Event: a structural proof was verified. Carries only hashes, never the
/// raw proof or signals.
#[derive(Clone, Debug)]
pub struct ProofVerified {
    pub wallet: [u8; 32],
    pub proof_hash: [u8; 32],
    pub public_signals_hash: [u8; 32],
    pub verification_type: ProofType,
    pub timestamp: i64,
}

/// Event: time-locked recovery was initiated.
#[derive(Clone, Debug)]
pub struct RecoveryInitiated {
    pub wallet: [u8; 32],
    pub recovery_commitment: [u8; 32],
    pub unlock_time: i64,
}

/// Event: recovery was executed after its timelock expired.
#[derive(Clone, Debug)]
pub struct RecoveryExecuted {
    pub wallet: [u8; 32],
    pub timestamp: i64,
}

/// Event: an active recovery was cancelled by the owner.
#[derive(Clone, Debug)]
pub struct RecoveryCancelled {
    pub wallet: [u8; 32],
    pub timestamp: i64,
}

/// Create a new wallet identity record holding the given commitment.
/// Address-level exclusivity (one record per owner) is the storage
/// collaborator's create-if-absent guarantee.
pub fn initialize_commitment(wallet: [u8; 32], user: [u8; 32], commitment: [u8; 32], now: i64) -> (r:
    (WalletAccount, CommitmentCreated))
    ensures
        r.0.commitment == commitment,
        r.0.owner == user,
        r.0.created_at == now,
        !r.0.recovery_active,
        r.1.wallet == wallet,
        r.1.commitment == commitment,
        r.1.timestamp == now,
{
    let account = WalletAccount {
        commitment,
        owner: user,
        created_at: now,
        recovery_commitment: [0u8; 32],
        recovery_active: false,
        recovery_initiated_at: 0,
        recovery_unlock_at: 0,
        recovery_executed_at: 0,
    };
    let event = CommitmentCreated { wallet, commitment, timestamp: now };
    (account, event)
}

/// The error, if any, that `submit_proof` surfaces for these inputs, in
/// check order.
pub open spec fn submit_proof_err(
    wallet: WalletAccount,
    proof: Seq<u8>,
    signals: Seq<[u8; 32]>,
) -> Option<ErrorCode> {
    if proof.len() < 256 {
        Some(ErrorCode::InvalidProofStructure)
    } else if signals.len() < 1 {
        Some(ErrorCode::InvalidProof)
    } else if !(is_field_element(proof.subrange(0, 32)) && is_field_element(
        proof.subrange(32, 64),
    )) {
        Some(ErrorCode::InvalidProofPoint)
    } else if !(is_field_element(proof.subrange(192, 224)) && is_field_element(
        proof.subrange(224, 256),
    )) {
        Some(ErrorCode::InvalidProofPoint)
    } else if exists|i: int| 0 <= i < signals.len() && !is_field_element(signals[i]@) {
        Some(ErrorCode::InvalidPublicSignal)
    } else if signals[0]@ != wallet.commitment@ {
        Some(ErrorCode::CommitmentMismatch)
    } else if spec_proof_hash(proof, signals) == zero32() {
        Some(ErrorCode::InvalidProofHash)
    } else {
        None
    }
}

/// Submit a Groth16-style proof bound to this wallet's commitment for
/// structural verification. Succeeds exactly when the blob is at least
/// 256 bytes, the `piA` and `piC` coordinates and every public signal are
/// valid field elements, the first signal equals the stored commitment,
/// and the audit hash is non-zero. The emitted event carries only hashes.
pub fn submit_proof(
    wallet: &WalletAccount,
    wallet_key: [u8; 32],
    proof_data: &Vec<u8>,
    public_signals: &Vec<[u8; 32]>,
    now: i64,
) -> (r: Result<ProofVerified, ErrorCode>)
    ensures
        match r {
            Ok(ev) => {
                &&& submit_proof_err(*wallet, proof_data@, public_signals@) is None
                &&& ev.wallet == wallet_key
                &&& ev.proof_hash@ == spec_proof_hash(proof_data@, public_signals@)
                &&& ev.public_signals_hash@ == spec_signals_hash(public_signals@)
                &&& ev.verification_type == ProofType::Groth16
                &&& ev.timestamp == now
            },
            Err(e) => submit_proof_err(*wallet, proof_data@, public_signals@) == Some(e),
        },
{
    if proof_data.len() < 256 {
        return Err(ErrorCode::InvalidProofStructure);
    }
    if public_signals.len() < 1 {
        return Err(ErrorCode::InvalidProof);
    }
    let proof_slice = proof_data.as_slice();
    let a0 = vstd::slice::slice_subrange(proof_slice, 0, 32);
    let a1 = vstd::slice::slice_subrange(proof_slice, 32, 64);
    if !(crate::field::verify_field_element(a0) && crate::field::verify_field_element(a1)) {
        return Err(ErrorCode::InvalidProofPoint);
    }
    let c0 = vstd::slice::slice_subrange(proof_slice, 192, 224);
    let c1 = vstd::slice::slice_subrange(proof_slice, 224, 256);
    if !(crate::field::verify_field_element(c0) && crate::field::verify_field_element(c1)) {
        return Err(ErrorCode::InvalidProofPoint);
    }
    let n: usize = public_signals.len();
    for i in 0..n
        invariant
            n == public_signals@.len(),
            n >= 1,
            proof_data@.len() >= 256,
            is_field_element(proof_data@.subrange(0, 32)),
            is_field_element(proof_data@.subrange(32, 64)),
            is_field_element(proof_data@.subrange(192, 224)),
            is_field_element(proof_data@.subrange(224, 256)),
            forall|j: int| 0 <= j < i ==> is_field_element(public_signals@[j]@),
    {
        let signal = &public_signals[i];
        if !crate::field::verify_field_element(signal.as_slice()) {
            proof {
                let j = i as int;
                assert(0 <= j < public_signals@.len());
                assert(!is_field_element(public_signals@[j]@));
            }
            return Err(ErrorCode::InvalidPublicSignal);
        }
    }
    if !bytes32_eq(&public_signals[0], &wallet.commitment) {
        return Err(ErrorCode::CommitmentMismatch);
    }
    let proof_hash = compute_proof_hash(proof_data, public_signals);
    if is_zero32(&proof_hash) {
        return Err(ErrorCode::InvalidProofHash);
    }
    let signals_hash = hash_public_signals(public_signals);
    Ok(
        ProofVerified {
            wallet: wallet_key,
            proof_hash,
            public_signals_hash: signals_hash,
            verification_type: ProofType::Groth16,
            timestamp: now,
        },
    )
}

/// The error, if any, that `initiate_recovery` surfaces for these inputs.
pub open spec fn initiate_recovery_err(
    wallet: WalletAccount,
    user: Seq<u8>,
    timelock_days: u8,
) -> Option<ErrorCode> {
    if wallet.owner@ != user {
        Some(ErrorCode::Unauthorized)
    } else if wallet.recovery_active {
        Some(ErrorCode::RecoveryAlreadyActive)
    } else if !(1 <= timelock_days <= 90) {
        Some(ErrorCode::InvalidTimelockPeriod)
    } else {
        None
    }
}

/// Initiate time-locked recovery: owner-only, only while no recovery is
/// active, with a timelock of 1 to 90 days. The unlock time is the
/// current time plus the timelock in seconds.
pub fn initiate_recovery(
    wallet: &mut WalletAccount,
    wallet_key: [u8; 32],
    user: [u8; 32],
    recovery_commitment: [u8; 32],
    timelock_days: u8,
    now: i64,
) -> (r: Result<RecoveryInitiated, ErrorCode>)
    requires
        0 <= now,
        now + 7776000 <= i64::MAX,
    ensures
        match r {
            Ok(ev) => {
                &&& initiate_recovery_err(*old(wallet), user@, timelock_days) is None
                &&& final(wallet).recovery_commitment == recovery_commitment
                &&& final(wallet).recovery_initiated_at == now
                &&& final(wallet).recovery_unlock_at == now + timelock_days * 86400
                &&& final(wallet).recovery_active
                &&& final(wallet).commitment == old(wallet).commitment
                &&& final(wallet).owner == old(wallet).owner
                &&& final(wallet).created_at == old(wallet).created_at
                &&& final(wallet).recovery_executed_at == old(wallet).recovery_executed_at
                &&& ev.wallet == wallet_key
                &&& ev.recovery_commitment == recovery_commitment
                &&& ev.unlock_time == now + timelock_days * 86400
            },
            Err(e) => {
                &&& initiate_recovery_err(*old(wallet), user@, timelock_days) == Some(e)
                &&& *final(wallet) == *old(wallet)
            },
        },
{
    if !bytes32_eq(&wallet.owner, &user) {
        return Err(ErrorCode::Unauthorized);
    }
    if wallet.recovery_active {
        return Err(ErrorCode::RecoveryAlreadyActive);
    }
    if !(timelock_days >= 1 && timelock_days <= 90) {
        return Err(ErrorCode::InvalidTimelockPeriod);
    }
    let unlock_time: i64 = now + (timelock_days as i64) * 86400;
    wallet.recovery_commitment = recovery_commitment;
    wallet.recovery_initiated_at = now;
    wallet.recovery_unlock_at = unlock_time;
    wallet.recovery_active = true;
    Ok(RecoveryInitiated { wallet: wallet_key, recovery_commitment, unlock_time })
}

/// The error, if any, that `execute_recovery` surfaces for these inputs.
pub open spec fn execute_recovery_err(
    wallet: WalletAccount,
    proof_len: nat,
    now: i64,
) -> Option<ErrorCode> {
    if !wallet.recovery_active {
        Some(ErrorCode::NoActiveRecovery)
    } else if now < wallet.recovery_unlock_at {
        Some(ErrorCode::TimelockNotExpired)
    } else if proof_len == 0 {
        Some(ErrorCode::InvalidProof)
    } else {
        None
    }
}

/// Execute recovery: only while recovery is active and the timelock has
/// expired, with a non-empty recovery proof. Clears the active flag.
pub fn execute_recovery(
    wallet: &mut WalletAccount,
    wallet_key: [u8; 32],
    recovery_proof: &Vec<u8>,
    now: i64,
) -> (r: Result<RecoveryExecuted, ErrorCode>)
    ensures
        match r {
            Ok(ev) => {
                &&& execute_recovery_err(*old(wallet), recovery_proof@.len(), now) is None
                &&& !final(wallet).recovery_active
                &&& final(wallet).recovery_executed_at == now
                &&& final(wallet).commitment == old(wallet).commitment
                &&& final(wallet).owner == old(wallet).owner
                &&& final(wallet).created_at == old(wallet).created_at
                &&& final(wallet).recovery_commitment == old(wallet).recovery_commitment
                &&& final(wallet).recovery_initiated_at == old(wallet).recovery_initiated_at
                &&& final(wallet).recovery_unlock_at == old(wallet).recovery_unlock_at
                &&& ev.wallet == wallet_key
                &&& ev.timestamp == now
            },
            Err(e) => {
                &&& execute_recovery_err(*old(wallet), recovery_proof@.len(), now) == Some(e)
                &&& *final(wallet) == *old(wallet)
            },
        },
{
    if !wallet.recovery_active {
        return Err(ErrorCode::NoActiveRecovery);
    }
    if now < wallet.recovery_unlock_at {
        return Err(ErrorCode::TimelockNotExpired);
    }
    if recovery_proof.len() == 0 {
        return Err(ErrorCode::InvalidProof);
    }
    wallet.recovery_active = false;
    wallet.recovery_executed_at = now;
    Ok(RecoveryExecuted { wallet: wallet_key, timestamp: now })
}

/// The error, if any, that `cancel_recovery` surfaces for these inputs.
pub open spec fn cancel_recovery_err(wallet: WalletAccount, user: Seq<u8>) -> Option<ErrorCode> {
    if wallet.owner@ != user {
        Some(ErrorCode::Unauthorized)
    } else if !wallet.recovery_active {
        Some(ErrorCode::NoActiveRecovery)
    } else {
        None
    }
}

/// Cancel an active recovery: owner-only, only while recovery is active.
pub fn cancel_recovery(
    wallet: &mut WalletAccount,
    wallet_key: [u8; 32],
    user: [u8; 32],
    now: i64,
) -> (r: Result<RecoveryCancelled, ErrorCode>)
    ensures
        match r {
            Ok(ev) => {
                &&& cancel_recovery_err(*old(wallet), user@) is None
                &&& !final(wallet).recovery_active
                &&& final(wallet).commitment == old(wallet).commitment
                &&& final(wallet).owner == old(wallet).owner
                &&& final(wallet).created_at == old(wallet).created_at
                &&& final(wallet).recovery_commitment == old(wallet).recovery_commitment
                &&& final(wallet).recovery_initiated_at == old(wallet).recovery_initiated_at
                &&& final(wallet).recovery_unlock_at == old(wallet).recovery_unlock_at
                &&& final(wallet).recovery_executed_at == old(wallet).recovery_executed_at
                &&& ev.wallet == wallet_key
                &&& ev.timestamp == now
            },
            Err(e) => {
                &&& cancel_recovery_err(*old(wallet), user@) == Some(e)
                &&& *final(wallet) == *old(wallet)
            },
        },
{
    if !bytes32_eq(&wallet.owner, &user) {
        return Err(ErrorCode::Unauthorized);
    }
    if !wallet.recovery_active {
        return Err(ErrorCode::NoActiveRecovery);
    }
    wallet.recovery_active = false;
    Ok(RecoveryCancelled { wallet: wallet_key, timestamp: now })
}

} // verus!

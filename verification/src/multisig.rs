//! Stealth multisig: signer identities are stored as commitments, and a
//! proposal executes once a threshold of anonymous, pairwise-distinct
//! approval commitments has been collected.

use vstd::prelude::*;
use crate::bytes::{bytes32_eq, is_zero32, zero32};
use crate::errors::ErrorCode;

verus! {

/// A stealth multisig vault: signers appear only as commitments.
#[derive(Clone, Debug)]
pub struct StealthMultisig {
    /// Unique vault identifier.
    pub vault_id: [u8; 32],
    /// Creator of the multisig.
    pub creator: [u8; 32],
    /// Number of approvals required.
    pub threshold: u8,
    /// Total number of signers.
    pub total_signers: u8,
    /// Signer commitments (never public keys).
    pub signer_commitments: Vec<[u8; 32]>,
    /// When the multisig was created.
    pub created_at: i64,
    /// Number of proposals created.
    pub proposal_count: u32,
}

/// A multisig proposal with its stealth approvals.
#[derive(Clone, Debug)]
pub struct MultisigProposal {
    /// The multisig this proposal belongs to.
    pub multisig: [u8; 32],
    /// Unique proposal identifier.
    pub proposal_id: [u8; 32],
    /// Hash of the instruction to execute.
    pub instruction_hash: [u8; 32],
    /// When the proposal was created.
    pub created_at: i64,
    /// Number of approvals received.
    pub approval_count: u8,
    /// Approval commitments, append-only and pairwise distinct.
    pub approval_commitments: Vec<[u8; 32]>,
    /// Whether the proposal has been executed.
    pub is_executed: bool,
    /// When the proposal was executed.
    pub executed_at: i64,
}

/// Event: a multisig vault was created.
#[derive(Clone, Debug)]
pub struct MultisigCreated {
    pub multisig: [u8; 32],
    pub vault_id: [u8; 32],
    pub threshold: u8,
    pub total_signers: u8,
    pub timestamp: i64,
}

/// Event: a multisig proposal was created.
#[derive(Clone, Debug)]
pub struct MultisigProposalCreated {
    pub multisig: [u8; 32],
    pub proposal: [u8; 32],
    pub proposal_id: [u8; 32],
    pub instruction_hash: [u8; 32],
    pub timestamp: i64,
}

/// Event: a stealth approval was added. The signer identity is
/// deliberately not carried.
#[derive(Clone, Debug)]
pub struct StealthSignatureAdded {
    pub proposal: [u8; 32],
    pub approval_commitment: [u8; 32],
    pub current_approvals: u8,
    pub threshold: u8,
    pub timestamp: i64,
}

/// Event: a multisig proposal was executed.
#[derive(Clone, Debug)]
pub struct MultisigProposalExecuted {
    pub multisig: [u8; 32],
    pub proposal: [u8; 32],
    pub approval_count: u8,
    pub timestamp: i64,
}

/// Well-formedness of a vault: a positive threshold no larger than the
/// signer count, at most ten signers, one stored commitment per signer.
pub open spec fn multisig_wf(m: StealthMultisig) -> bool {
    &&& 1 <= m.threshold
    &&& m.threshold <= m.total_signers
    &&& m.total_signers <= 10
    &&& m.signer_commitments@.len() == m.total_signers
}

/// Well-formedness of a proposal: one stored commitment per counted
/// approval, at most ten.
pub open spec fn proposal_wf(p: MultisigProposal) -> bool {
    &&& p.approval_commitments@.len() == p.approval_count
    &&& p.approval_count <= 10
}

/// The error, if any, that `create_multisig` surfaces for these inputs.
pub open spec fn create_multisig_err(threshold: u8, signer_count: nat) -> Option<ErrorCode> {
    if threshold == 0 {
        Some(ErrorCode::InvalidThreshold)
    } else if signer_count < threshold {
        Some(ErrorCode::InvalidThreshold)
    } else if signer_count > 10 {
        Some(ErrorCode::TooManySigners)
    } else {
        None
    }
}

/// Create a stealth multisig vault: the threshold must be positive and no
/// larger than the number of signer commitments, of which there are at
/// most ten.
pub fn create_multisig(
    multisig_key: [u8; 32],
    creator: [u8; 32],
    vault_id: [u8; 32],
    threshold: u8,
    signer_commitments: Vec<[u8; 32]>,
    now: i64,
) -> (r: Result<(StealthMultisig, MultisigCreated), ErrorCode>)
    ensures
        match r {
            Ok(pr) => {
                &&& create_multisig_err(threshold, signer_commitments@.len()) is None
                &&& multisig_wf(pr.0)
                &&& pr.0.vault_id == vault_id
                &&& pr.0.creator == creator
                &&& pr.0.threshold == threshold
                &&& pr.0.total_signers == signer_commitments@.len()
                &&& pr.0.signer_commitments@ == signer_commitments@
                &&& pr.0.created_at == now
                &&& pr.0.proposal_count == 0
                &&& pr.1.multisig == multisig_key
                &&& pr.1.vault_id == vault_id
                &&& pr.1.threshold == threshold
                &&& pr.1.total_signers == signer_commitments@.len()
                &&& pr.1.timestamp == now
            },
            Err(e) => create_multisig_err(threshold, signer_commitments@.len()) == Some(e),
        },
{
    if threshold == 0 {
        return Err(ErrorCode::InvalidThreshold);
    }
    if signer_commitments.len() < threshold as usize {
        return Err(ErrorCode::InvalidThreshold);
    }
    if signer_commitments.len() > crate::MAX_MULTISIG_SIGNERS {
        return Err(ErrorCode::TooManySigners);
    }
    let total_signers: u8 = signer_commitments.len() as u8;
    let multisig = StealthMultisig {
        vault_id,
        creator,
        threshold,
        total_signers,
        signer_commitments,
        created_at: now,
        proposal_count: 0,
    };
    let event = MultisigCreated {
        multisig: multisig_key,
        vault_id,
        threshold,
        total_signers,
        timestamp: now,
    };
    Ok((multisig, event))
}

/// Create a proposal for the multisig to execute: approvals start empty
/// and the vault's proposal count advances.
pub fn create_multisig_proposal(
    multisig: &mut StealthMultisig,
    multisig_key: [u8; 32],
    proposal_key: [u8; 32],
    proposal_id: [u8; 32],
    instruction_hash: [u8; 32],
    now: i64,
) -> (r: (MultisigProposal, MultisigProposalCreated))
    requires
        old(multisig).proposal_count < u32::MAX,
    ensures
        proposal_wf(r.0),
        r.0.multisig == multisig_key,
        r.0.proposal_id == proposal_id,
        r.0.instruction_hash == instruction_hash,
        r.0.created_at == now,
        r.0.approval_count == 0,
        r.0.approval_commitments@.len() == 0,
        !r.0.is_executed,
        final(multisig).proposal_count == old(multisig).proposal_count + 1,
        final(multisig).vault_id == old(multisig).vault_id,
        final(multisig).creator == old(multisig).creator,
        final(multisig).threshold == old(multisig).threshold,
        final(multisig).total_signers == old(multisig).total_signers,
        final(multisig).signer_commitments@ == old(multisig).signer_commitments@,
        final(multisig).created_at == old(multisig).created_at,
        r.1.multisig == multisig_key,
        r.1.proposal == proposal_key,
        r.1.proposal_id == proposal_id,
        r.1.instruction_hash == instruction_hash,
        r.1.timestamp == now,
{
    let proposal = MultisigProposal {
        multisig: multisig_key,
        proposal_id,
        instruction_hash,
        created_at: now,
        approval_count: 0,
        approval_commitments: Vec::new(),
        is_executed: false,
        executed_at: 0,
    };
    multisig.proposal_count = multisig.proposal_count + 1;
    let event = MultisigProposalCreated {
        multisig: multisig_key,
        proposal: proposal_key,
        proposal_id,
        instruction_hash,
        timestamp: now,
    };
    (proposal, event)
}

/// Whether an approval commitment already appears among the stored ones.
pub open spec fn approval_is_duplicate(p: MultisigProposal, approval: Seq<u8>) -> bool {
    exists|i: int| 0 <= i < p.approval_commitments@.len() && p.approval_commitments@[i]@ == approval
}

/// The error, if any, that `stealth_sign` surfaces for these inputs.
pub open spec fn stealth_sign_err(
    m: StealthMultisig,
    p: MultisigProposal,
    multisig_key: Seq<u8>,
    signer_proof: Seq<u8>,
    approval: Seq<u8>,
) -> Option<ErrorCode> {
    if p.multisig@ != multisig_key {
        Some(ErrorCode::Unauthorized)
    } else if p.is_executed {
        Some(ErrorCode::ProposalAlreadyExecuted)
    } else if p.approval_count >= m.threshold {
        Some(ErrorCode::ThresholdReached)
    } else if signer_proof == zero32() {
        Some(ErrorCode::InvalidSignerProof)
    } else if approval_is_duplicate(p, approval) {
        Some(ErrorCode::DuplicateApproval)
    } else {
        None
    }
}

/// Add a stealth approval: only while the proposal is unexecuted and the
/// threshold is not yet reached, with a non-trivial signer proof and an
/// approval commitment distinct from every stored one. The commitment is
/// appended and the count advances by one.
pub fn stealth_sign(
    multisig: &StealthMultisig,
    proposal: &mut MultisigProposal,
    multisig_key: [u8; 32],
    proposal_key: [u8; 32],
    signer_proof: [u8; 32],
    approval_commitment: [u8; 32],
    now: i64,
) -> (r: Result<StealthSignatureAdded, ErrorCode>)
    requires
        multisig_wf(*multisig),
        proposal_wf(*old(proposal)),
    ensures
        proposal_wf(*final(proposal)),
        match r {
            Ok(ev) => {
                &&& stealth_sign_err(
                    *multisig,
                    *old(proposal),
                    multisig_key@,
                    signer_proof@,
                    approval_commitment@,
                ) is None
                &&& final(proposal).approval_commitments@ == old(
                    proposal,
                ).approval_commitments@.push(approval_commitment)
                &&& final(proposal).approval_count == old(proposal).approval_count + 1
                &&& final(proposal).multisig == old(proposal).multisig
                &&& final(proposal).proposal_id == old(proposal).proposal_id
                &&& final(proposal).instruction_hash == old(proposal).instruction_hash
                &&& final(proposal).created_at == old(proposal).created_at
                &&& final(proposal).is_executed == old(proposal).is_executed
                &&& final(proposal).executed_at == old(proposal).executed_at
                &&& ev.proposal == proposal_key
                &&& ev.approval_commitment == approval_commitment
                &&& ev.current_approvals == old(proposal).approval_count + 1
                &&& ev.threshold == multisig.threshold
                &&& ev.timestamp == now
            },
            Err(e) => {
                &&& stealth_sign_err(
                    *multisig,
                    *old(proposal),
                    multisig_key@,
                    signer_proof@,
                    approval_commitment@,
                ) == Some(e)
                &&& *final(proposal) == *old(proposal)
            },
        },
{
    if !bytes32_eq(&proposal.multisig, &multisig_key) {
        return Err(ErrorCode::Unauthorized);
    }
    if proposal.is_executed {
        return Err(ErrorCode::ProposalAlreadyExecuted);
    }
    if proposal.approval_count >= multisig.threshold {
        return Err(ErrorCode::ThresholdReached);
    }
    if is_zero32(&signer_proof) {
        return Err(ErrorCode::InvalidSignerProof);
    }
    let current_count: usize = proposal.approval_count as usize;
    for i in 0..current_count
        invariant
            proposal_wf(*proposal),
            *proposal == *old(proposal),
            current_count == proposal.approval_count,
            proposal.multisig@ == multisig_key@,
            !proposal.is_executed,
            proposal.approval_count < multisig.threshold,
            signer_proof@ != zero32(),
            forall|j: int|
                0 <= j < i ==> proposal.approval_commitments@[j]@ != approval_commitment@,
    {
        if bytes32_eq(&proposal.approval_commitments[i], &approval_commitment) {
            proof {
                let j = i as int;
                assert(proposal.approval_commitments@[j]@ == approval_commitment@);
            }
            return Err(ErrorCode::DuplicateApproval);
        }
    }
    proposal.approval_commitments.push(approval_commitment);
    proposal.approval_count = proposal.approval_count + 1;
    Ok(
        StealthSignatureAdded {
            proposal: proposal_key,
            approval_commitment,
            current_approvals: proposal.approval_count,
            threshold: multisig.threshold,
            timestamp: now,
        },
    )
}

/// The error, if any, that `execute_multisig_proposal` surfaces for these
/// inputs.
pub open spec fn execute_proposal_err(
    m: StealthMultisig,
    p: MultisigProposal,
    multisig_key: Seq<u8>,
) -> Option<ErrorCode> {
    if p.multisig@ != multisig_key {
        Some(ErrorCode::Unauthorized)
    } else if p.is_executed {
        Some(ErrorCode::ProposalAlreadyExecuted)
    } else if p.approval_count < m.threshold {
        Some(ErrorCode::InsufficientApprovals)
    } else {
        None
    }
}

/// Execute a multisig proposal: only once the approval count has reached
/// the threshold, and only once; the executed flag is the idempotency
/// guard.
pub fn execute_multisig_proposal(
    multisig: &StealthMultisig,
    proposal: &mut MultisigProposal,
    multisig_key: [u8; 32],
    proposal_key: [u8; 32],
    now: i64,
) -> (r: Result<MultisigProposalExecuted, ErrorCode>)
    ensures
        match r {
            Ok(ev) => {
                &&& execute_proposal_err(*multisig, *old(proposal), multisig_key@) is None
                &&& final(proposal).is_executed
                &&& final(proposal).executed_at == now
                &&& final(proposal).multisig == old(proposal).multisig
                &&& final(proposal).proposal_id == old(proposal).proposal_id
                &&& final(proposal).instruction_hash == old(proposal).instruction_hash
                &&& final(proposal).created_at == old(proposal).created_at
                &&& final(proposal).approval_count == old(proposal).approval_count
                &&& final(proposal).approval_commitments@ == old(proposal).approval_commitments@
                &&& ev.multisig == multisig_key
                &&& ev.proposal == proposal_key
                &&& ev.approval_count == old(proposal).approval_count
                &&& ev.timestamp == now
            },
            Err(e) => {
                &&& execute_proposal_err(*multisig, *old(proposal), multisig_key@) == Some(e)
                &&& *final(proposal) == *old(proposal)
            },
        },
{
    if !bytes32_eq(&proposal.multisig, &multisig_key) {
        return Err(ErrorCode::Unauthorized);
    }
    if proposal.is_executed {
        return Err(ErrorCode::ProposalAlreadyExecuted);
    }
    if proposal.approval_count < multisig.threshold {
        return Err(ErrorCode::InsufficientApprovals);
    }
    proposal.is_executed = true;
    proposal.executed_at = now;
    Ok(
        MultisigProposalExecuted {
            multisig: multisig_key,
            proposal: proposal_key,
            approval_count: proposal.approval_count,
            timestamp: now,
        },
    )
}

/// Execution happens at most once: after a successful execution has
/// marked the proposal executed, any further execution attempt on it
/// fails with the executed-guard error, whatever else has changed.
pub proof fn lemma_execute_only_once(
    m1: StealthMultisig,
    m2: StealthMultisig,
    p: MultisigProposal,
    q: MultisigProposal,
    multisig_key: Seq<u8>,
)
    requires
        execute_proposal_err(m1, p, multisig_key) is None,
        q.is_executed,
        q.multisig == p.multisig,
    ensures
        execute_proposal_err(m2, q, multisig_key) == Some(ErrorCode::ProposalAlreadyExecuted),
{
}

} // verus!

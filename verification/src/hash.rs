//! Keccak-256 hashing, and the commitment and audit-hash constructions
//! built on it.
//!
//! The digest itself is computed by an outside crate; its value is named
//! by the uninterpreted function [`keccak_of`], and every construction here
//! states its result exactly in terms of that name.

use vstd::prelude::*;
use crate::bytes::push_bytes;

verus! {

/// The Keccak-256 digest of a byte string.
pub uninterp spec fn keccak_of(data: Seq<u8>) -> Seq<u8>;

/// Relies on anchor_lang::solana_program::keccak::hash: the Keccak-256
/// digest of the input, a function of the input bytes alone, 32 bytes long.
#[verifier::external_body]
pub(crate) fn keccak256(data: &Vec<u8>) -> (r: [u8; 32])
    ensures
        r@ == keccak_of(data@),
{
    anchor_lang::solana_program::keccak::hash(data.as_slice()).to_bytes()
}

/// A sequence of 32-byte words flattened into one byte string.
pub open spec fn flatten_words(s: Seq<[u8; 32]>) -> Seq<u8>
    decreases s.len(),
{
    if s.len() == 0 {
        Seq::empty()
    } else {
        flatten_words(s.drop_last()) + s.last()@
    }
}

/// The vote commitment preimage: one choice byte, then the secret, then
/// the voter address.
pub open spec fn vote_preimage(choice: bool, secret: Seq<u8>, voter: Seq<u8>) -> Seq<u8> {
    seq![if choice { 1u8 } else { 0u8 }] + secret + voter
}

/// The vote commitment: `H(choice ‖ secret ‖ voter)`.
pub open spec fn spec_vote_commitment(choice: bool, secret: Seq<u8>, voter: Seq<u8>) -> Seq<u8> {
    keccak_of(vote_preimage(choice, secret, voter))
}

/// Hash a proof blob together with its public signals, for audit events.
pub open spec fn spec_proof_hash(proof: Seq<u8>, signals: Seq<[u8; 32]>) -> Seq<u8> {
    keccak_of(proof + flatten_words(signals))
}

/// Hash the public signals alone, for audit events.
pub open spec fn spec_signals_hash(signals: Seq<[u8; 32]>) -> Seq<u8> {
    keccak_of(flatten_words(signals))
}

/// Append each 32-byte word of `signals` to `out`.
fn push_words(out: &mut Vec<u8>, signals: &Vec<[u8; 32]>)
    ensures
        final(out)@ == old(out)@ + flatten_words(signals@),
{
    proof {
        assert(out@ =~= out@ + flatten_words(signals@.subrange(0, 0)));
    }
    let n: usize = signals.len();
    for i in 0..n
        invariant
            n == signals@.len(),
            out@ == old(out)@ + flatten_words(signals@.subrange(0, i as int)),
    {
        push_bytes(out, signals[i].as_slice());
        proof {
            assert(signals@.subrange(0, i as int + 1).drop_last() =~= signals@.subrange(
                0,
                i as int,
            ));
            assert(signals@.subrange(0, i as int + 1).last() == signals@[i as int]);
        }
    }
    proof {
        assert(signals@.subrange(0, n as int) =~= signals@);
    }
}

/// Compute the vote commitment `H(choice ‖ secret ‖ voter)`.
pub fn compute_vote_commitment(choice: bool, secret: &[u8; 32], voter: &[u8; 32]) -> (r: [u8; 32])
    ensures
        r@ == spec_vote_commitment(choice, secret@, voter@),
{
    let mut data: Vec<u8> = Vec::new();
    data.push(if choice { 1u8 } else { 0u8 });
    push_bytes(&mut data, secret.as_slice());
    push_bytes(&mut data, voter.as_slice());
    proof {
        assert(data@ =~= vote_preimage(choice, secret@, voter@));
    }
    keccak256(&data)
}

/// Hash public signals for event logging: `H(signal_0 ‖ … ‖ signal_n)`.
pub fn hash_public_signals(signals: &Vec<[u8; 32]>) -> (r: [u8; 32])
    ensures
        r@ == spec_signals_hash(signals@),
{
    let mut data: Vec<u8> = Vec::new();
    push_words(&mut data, signals);
    proof {
        assert(data@ =~= flatten_words(signals@));
    }
    keccak256(&data)
}

/// Compute the audit hash of a proof blob and its public signals:
/// `H(proof ‖ signal_0 ‖ … ‖ signal_n)`.
pub fn compute_proof_hash(proof_data: &Vec<u8>, signals: &Vec<[u8; 32]>) -> (r: [u8; 32])
    ensures
        r@ == spec_proof_hash(proof_data@, signals@),
{
    let mut data: Vec<u8> = Vec::new();
    push_bytes(&mut data, proof_data.as_slice());
    push_words(&mut data, signals);
    keccak256(&data)
}

} // verus!

//! Byte-string helpers: appending slices to a buffer and comparing
//! fixed-size byte arrays, with exact sequence-level contracts.

use vstd::prelude::*;

verus! {

/// The all-zero 32-byte string.
pub open spec fn zero32() -> Seq<u8> {
    Seq::new(32, |i: int| 0u8)
}

/// Append a byte slice to the end of a buffer.
pub fn push_bytes(out: &mut Vec<u8>, a: &[u8])
    ensures
        final(out)@ == old(out)@ + a@,
{
    proof {
        assert(out@ =~= out@ + a@.subrange(0, 0));
    }
    let n: usize = a.len();
    for i in 0..n
        invariant
            n == a@.len(),
            out@ == old(out)@ + a@.subrange(0, i as int),
    {
        out.push(a[i]);
        proof {
            assert(old(out)@ + a@.subrange(0, i as int) + seq![a@[i as int]] =~= old(out)@
                + a@.subrange(0, i as int + 1));
        }
    }
    proof {
        assert(a@.subrange(0, n as int) =~= a@);
    }
}

/// Compare two 32-byte arrays for equality.
pub fn bytes32_eq(a: &[u8; 32], b: &[u8; 32]) -> (r: bool)
    ensures
        r == (a@ == b@),
{
    for i in 0..32usize
        invariant
            forall|j: int| 0 <= j < i ==> a@[j] == b@[j],
    {
        if a[i] != b[i] {
            return false;
        }
    }
    proof {
        assert(a@ =~= b@);
    }
    true
}

/// Test whether a 32-byte array is all zeroes.
pub fn is_zero32(a: &[u8; 32]) -> (r: bool)
    ensures
        r == (a@ == zero32()),
{
    for i in 0..32usize
        invariant
            forall|j: int| 0 <= j < i ==> a@[j] == 0u8,
    {
        if a[i] != 0 {
            assert(a@[i as int] != zero32()[i as int]);
            return false;
        }
    }
    proof {
        assert(a@ =~= zero32());
    }
    true
}

} // verus!

//! Field-element range checks: a 32-byte big-endian value is a valid
//! field element exactly when it is strictly below the BN128 scalar-field
//! prime modulus.

use vstd::prelude::*;

verus! {

/// The BN128 scalar-field prime modulus, big-endian.
pub const BN128_MODULUS: [u8; 32] = [
    0x30, 0x64, 0x4e, 0x72, 0xe1, 0x31, 0xa0, 0x29,
    0xb8, 0x50, 0x45, 0xb6, 0x81, 0x81, 0x58, 0x5d,
    0x97, 0x81, 0x6a, 0x91, 0x68, 0x71, 0xca, 0x8d,
    0x3c, 0x20, 0x8c, 0x16, 0xd8, 0x7c, 0xfd, 0x47,
];

/// The big-endian integer value of a byte string.
pub open spec fn be_val(s: Seq<u8>) -> nat
    decreases s.len(),
{
    if s.len() == 0 {
        0
    } else {
        be_val(s.drop_last()) * 256 + s.last() as nat
    }
}

/// A 32-byte string is a valid field element when its big-endian value is
/// strictly below the modulus.
pub open spec fn is_field_element(s: Seq<u8>) -> bool {
    s.len() == 32 && be_val(s) < be_val(BN128_MODULUS@)
}

/// On byte strings of equal length, a strictly smaller byte at the first
/// differing position means a strictly smaller big-endian value.
pub proof fn lemma_be_val_lt(a: Seq<u8>, b: Seq<u8>, k: int)
    requires
        a.len() == b.len(),
        0 <= k < a.len(),
        forall|j: int| 0 <= j < k ==> a[j] == b[j],
        a[k] < b[k],
    ensures
        be_val(a) < be_val(b),
    decreases a.len(),
{
    if k == a.len() - 1 {
        assert(a.drop_last() =~= b.drop_last());
        assert(be_val(a) == be_val(a.drop_last()) * 256 + a.last());
        assert(be_val(b) == be_val(b.drop_last()) * 256 + b.last());
    } else {
        lemma_be_val_lt(a.drop_last(), b.drop_last(), k);
        lemma_be_val_bound(a);
        assert(be_val(a) == be_val(a.drop_last()) * 256 + a.last());
        assert(be_val(b) == be_val(b.drop_last()) * 256 + b.last());
        assert(a.last() < 256);
        assert(be_val(a.drop_last()) * 256 + 256 <= be_val(b.drop_last()) * 256);
    }
}

/// Every byte is below 256, so appending one multiplies the bound by 256.
pub proof fn lemma_be_val_bound(s: Seq<u8>)
    ensures
        be_val(s) < pow256(s.len() as nat),
    decreases s.len(),
{
    if s.len() == 0 {
    } else {
        lemma_be_val_bound(s.drop_last());
    }
}

/// 256 raised to the given power.
pub open spec fn pow256(n: nat) -> nat
    decreases n,
{
    if n == 0 {
        1
    } else {
        256 * pow256((n - 1) as nat)
    }
}

/// Verify that a byte string encodes a valid BN128 field element: it must
/// be exactly 32 bytes and its big-endian value strictly below the modulus.
pub fn verify_field_element(value: &[u8]) -> (r: bool)
    ensures
        r == is_field_element(value@),
{
    if value.len() != 32 {
        return false;
    }
    let modulus = BN128_MODULUS;
    for i in 0..32usize
        invariant
            value@.len() == 32,
            modulus@ == BN128_MODULUS@,
            forall|j: int| 0 <= j < i ==> value@[j] == BN128_MODULUS@[j],
    {
        let v = value[i];
        let m = modulus[i];
        if v < m {
            proof {
                lemma_be_val_lt(value@, BN128_MODULUS@, i as int);
            }
            return true;
        } else if v > m {
            proof {
                lemma_be_val_lt(BN128_MODULUS@, value@, i as int);
            }
            return false;
        }
    }
    proof {
        assert(value@ =~= BN128_MODULUS@);
    }
    false
}

} // verus!

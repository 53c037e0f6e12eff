//! Scalar-field elements of BLS12-381.
//!
//! A public input is an element of the scalar field `Fr`, carried as the
//! 32-byte little-endian encoding of its canonical representative.  An
//! encoding is valid exactly when the integer it denotes is below the group
//! order `r`; the range check is pure byte arithmetic and is verified here
//! against the mathematical value of the encoding.

use vstd::prelude::*;

verus! {

/// The value of a byte string read as a little-endian base-256 integer.
pub open spec fn le_val(s: Seq<u8>) -> nat
    decreases s.len(),
{
    if s.len() == 0 {
        0
    } else {
        s[0] as nat + 256 * le_val(s.skip(1))
    }
}

/// `256^n`.
pub open spec fn pow256(n: nat) -> nat
    decreases n,
{
    if n == 0 {
        1
    } else {
        256 * pow256((n - 1) as nat)
    }
}

/// The order `r` of the BLS12-381 scalar field, little-endian:
/// 0x73eda753299d7d483339d80809a1d80553bda402fffe5bfeffffffff00000001.
pub open spec fn fr_modulus_le() -> Seq<u8> {
    seq![
        0x01u8, 0x00, 0x00, 0x00, 0xff, 0xff, 0xff, 0xff,
        0xfe, 0x5b, 0xfe, 0xff, 0x02, 0xa4, 0xbd, 0x53,
        0x05, 0xd8, 0xa1, 0x09, 0x08, 0xd8, 0x39, 0x33,
        0x48, 0x7d, 0x9d, 0x29, 0x53, 0xa7, 0xed, 0x73,
    ]
}

/// A 32-byte string is a valid scalar encoding when its value is below `r`.
pub open spec fn fr_valid(s: Seq<u8>) -> bool {
    s.len() == 32 && le_val(s) < le_val(fr_modulus_le())
}

proof fn lemma_pow256_pos(n: nat)
    ensures
        pow256(n) >= 1,
    decreases n,
{
    if n > 0 {
        lemma_pow256_pos((n - 1) as nat);
    }
}

proof fn lemma_le_val_bound(s: Seq<u8>)
    ensures
        le_val(s) < pow256(s.len()),
    decreases s.len(),
{
    if s.len() == 0 {
    } else {
        lemma_le_val_bound(s.skip(1));
        assert(s.skip(1).len() == s.len() - 1);
        assert(s[0] < 256);
    }
}

proof fn lemma_le_val_split(s: Seq<u8>, m: int)
    requires
        0 <= m <= s.len(),
    ensures
        le_val(s) == le_val(s.take(m)) + pow256(m as nat) * le_val(s.skip(m)),
    decreases m,
{
    if m == 0 {
        assert(s.take(0).len() == 0);
        assert(s.skip(0) =~= s);
        assert(le_val(s.take(m)) == 0);
        assert(pow256(m as nat) == 1);
        assert(le_val(s.skip(m)) == le_val(s));
    } else {
        lemma_le_val_split(s.skip(1), m - 1);
        assert(s.skip(1).take(m - 1) =~= s.take(m).skip(1));
        assert(s.skip(1).skip(m - 1) =~= s.skip(m));
        assert(s.take(m)[0] == s[0]);
        assert(s.take(m).len() == m);
        let h = le_val(s.skip(1).take(m - 1));
        let p = pow256((m - 1) as nat);
        let r = le_val(s.skip(m));
        assert(le_val(s.take(m)) == s[0] as nat + 256 * h);
        assert(le_val(s.skip(1)) == h + p * r);
        assert(le_val(s) == s[0] as nat + 256 * le_val(s.skip(1)));
        assert(256 * (h + p * r) == 256 * h + (256 * p) * r) by (nonlinear_arith);
        assert(pow256(m as nat) == 256 * p);
        assert(le_val(s) == (s[0] as nat + 256 * h) + (256 * p) * r);
    }
}

/// If two equal-length byte strings agree above position `k` and differ at
/// `k`, the one with the smaller byte there denotes the smaller integer.
proof fn lemma_le_val_order(s: Seq<u8>, t: Seq<u8>, k: int)
    requires
        s.len() == t.len(),
        0 <= k < s.len(),
        s[k] < t[k],
        forall|j: int| k < j < s.len() ==> s[j] == t[j],
    ensures
        le_val(s) < le_val(t),
{
    lemma_le_val_split(s, k);
    lemma_le_val_split(t, k);
    assert(s.skip(k).skip(1) =~= s.skip(k + 1));
    assert(t.skip(k).skip(1) =~= t.skip(k + 1));
    assert(s.skip(k + 1) =~= t.skip(k + 1));
    let r = le_val(s.skip(k + 1));
    assert(s.skip(k)[0] == s[k]);
    assert(t.skip(k)[0] == t[k]);
    assert(le_val(s.skip(k)) == s[k] as nat + 256 * r);
    assert(le_val(t.skip(k)) == t[k] as nat + 256 * r);
    lemma_le_val_bound(s.take(k));
    assert(s.take(k).len() == k);
    lemma_pow256_pos(k as nat);
    let p = pow256(k as nat);
    let a = le_val(s.take(k));
    let b = le_val(t.take(k));
    assert(a + p * (s[k] as nat + 256 * r) < p * (t[k] as nat + 256 * r)) by (nonlinear_arith)
        requires
            a < p,
            s[k] as nat + 1 <= t[k] as nat,
            r >= 0,
            p >= 1,
    ;
}

/// The canonical little-endian encoding of the scalar-field order `r`.
pub fn fr_modulus_bytes() -> (r: [u8; 32])
    ensures
        r@ == fr_modulus_le(),
{
    let m: [u8; 32] = [
        0x01, 0x00, 0x00, 0x00, 0xff, 0xff, 0xff, 0xff,
        0xfe, 0x5b, 0xfe, 0xff, 0x02, 0xa4, 0xbd, 0x53,
        0x05, 0xd8, 0xa1, 0x09, 0x08, 0xd8, 0x39, 0x33,
        0x48, 0x7d, 0x9d, 0x29, 0x53, 0xa7, 0xed, 0x73,
    ];
    proof {
        assert(m@ =~= fr_modulus_le());
    }
    m
}

/// Decides whether 32 little-endian bytes encode a canonical scalar,
/// that is, an integer strictly below the group order `r`.
pub fn fr_is_valid(s: &[u8; 32]) -> (r: bool)
    ensures
        r == fr_valid(s@),
{
    let m = fr_modulus_bytes();
    let mut i: usize = 32;
    loop
        invariant
            0 <= i <= 32,
            m@ == fr_modulus_le(),
            forall|j: int| i <= j < 32 ==> s@[j] == m@[j],
        decreases i,
    {
        if i == 0 {
            proof {
                assert(s@ =~= fr_modulus_le());
            }
            return false;
        }
        i = i - 1;
        if s[i] < m[i] {
            proof {
                lemma_le_val_order(s@, fr_modulus_le(), i as int);
            }
            return true;
        }
        if s[i] > m[i] {
            proof {
                lemma_le_val_order(fr_modulus_le(), s@, i as int);
            }
            return false;
        }
    }
}

} // verus!

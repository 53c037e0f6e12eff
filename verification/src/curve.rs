//! Trusted arithmetic primitives over the BLS12-381 source groups.
//!
//! A G1 point travels as its 96-byte uncompressed encoding and a G2 point as
//! its 192-byte uncompressed encoding, in the canonical form of the external
//! curve library (big-endian coordinate bytes, with compression and infinity
//! flags in the high bits of the first byte).  Every operation on points --
//! decoding, the curve-equation and subgroup checks, negation, scalar
//! multiplication, addition, and the multi-pairing -- is a deterministic
//! function of those encodings alone, so each result is given a name here,
//! and a thin trusted wrapper per operation carries the library's answer
//! into verified code.
//!
//! One subtlety of the pinned library governs the shape of the validation
//! wrappers: its uncompressed decoder range-checks the coordinates but does
//! not test the curve equation, and the membership test its validation then
//! runs assumes that equation (it is computed with curve formulas that do
//! not involve the constant term, so it also accepts points of other curves
//! of the family).  The wrappers therefore call `is_on_curve` themselves,
//! and an encoding counts as valid only if it passes both the library's
//! validated decode and the explicit curve-equation check; for such a point
//! the membership test's assumption holds, so a valid non-infinity point
//! really lies in the prime-order subgroup.

use vstd::prelude::*;
use ark_bls12_381::{Bls12_381, Fr, G1Affine, G2Affine};
use ark_ec::pairing::Pairing;
use ark_ec::{AffineRepr, CurveGroup};
use ark_ff::Zero;
use ark_serialize::{CanonicalDeserialize, CanonicalSerialize};
use crate::scalar::fr_valid;

verus! {

/// Whether 96 bytes are accepted by the library's validated uncompressed
/// G1 decode and the decoded point satisfies the G1 curve equation
/// (infinity counts as on the curve).  Taken together the two checks put
/// every accepted non-infinity point in the prime-order subgroup.
pub uninterp spec fn g1_dec_ok(b: Seq<u8>) -> bool;

/// Whether an accepted G1 encoding denotes the point at infinity (the
/// decoder answers it from the infinity flag bit alone).
pub uninterp spec fn g1_is_inf(b: Seq<u8>) -> bool;

/// Whether 192 bytes are accepted by the library's validated uncompressed
/// G2 decode and the decoded point satisfies the G2 curve equation, as for
/// G1.
pub uninterp spec fn g2_dec_ok(b: Seq<u8>) -> bool;

/// Whether an accepted G2 encoding denotes the point at infinity.
pub uninterp spec fn g2_is_inf(b: Seq<u8>) -> bool;

/// The encoding of the scalar multiple `s * p` in G1.
pub uninterp spec fn g1_mul_s(p: Seq<u8>, s: Seq<u8>) -> Seq<u8>;

/// The encoding of the group sum `p + q` in G1.
pub uninterp spec fn g1_add_s(p: Seq<u8>, q: Seq<u8>) -> Seq<u8>;

/// The encoding of the additive inverse `-p` in G1.
pub uninterp spec fn g1_neg_s(p: Seq<u8>) -> Seq<u8>;

/// Whether the product of pairings `e(g1s[0], g2s[0]) * ... * e(g1s[n-1],
/// g2s[n-1])` equals the identity of the target group.
pub uninterp spec fn pairing_prod_is_one(g1s: Seq<Seq<u8>>, g2s: Seq<Seq<u8>>) -> bool;

/// A valid G1 input: it decodes and is not the point at infinity.
pub open spec fn g1_input_valid(b: Seq<u8>) -> bool {
    g1_dec_ok(b) && !g1_is_inf(b)
}

/// A valid G2 input: it decodes and is not the point at infinity.
pub open spec fn g2_input_valid(b: Seq<u8>) -> bool {
    g2_dec_ok(b) && !g2_is_inf(b)
}

/// The element views of a sequence of G1 encodings.
pub open spec fn views96(v: Seq<[u8; 96]>) -> Seq<Seq<u8>> {
    v.map_values(|a: [u8; 96]| a@)
}

/// The element views of a sequence of G2 encodings.
pub open spec fn views192(v: Seq<[u8; 192]>) -> Seq<Seq<u8>> {
    v.map_values(|a: [u8; 192]| a@)
}

/// Relies on `G1Affine::deserialize_uncompressed` (flag and coordinate
/// range checks, plus the library's membership test, which assumes the
/// curve equation), on `is_on_curve` for the curve equation itself, which
/// that decoder does not test on uncompressed input, and on
/// `AffineRepr::is_zero` to tell the point at infinity apart.
#[verifier::external_body]
pub(crate) fn g1_check(b: &[u8; 96]) -> (ok: bool)
    ensures
        ok == (g1_dec_ok(b@) && !g1_is_inf(b@)),
{
    match G1Affine::deserialize_uncompressed(&b[..]) {
        Ok(p) => p.is_on_curve() && !p.is_zero(),
        Err(_) => false,
    }
}

/// Relies on `G2Affine::deserialize_uncompressed`, `is_on_curve` and
/// `AffineRepr::is_zero`, exactly as `g1_check` does on G1: the decoder
/// leaves the curve equation of uncompressed input untested, so it is
/// checked here explicitly.
#[verifier::external_body]
pub(crate) fn g2_check(b: &[u8; 192]) -> (ok: bool)
    ensures
        ok == (g2_dec_ok(b@) && !g2_is_inf(b@)),
{
    match G2Affine::deserialize_uncompressed(&b[..]) {
        Ok(p) => p.is_on_curve() && !p.is_zero(),
        Err(_) => false,
    }
}

/// Relies on scalar multiplication `Affine * Fr` of the curve library; the
/// decodings succeed because the operand encodings are valid, and since a
/// valid operand is a genuine subgroup point (or infinity), so is the
/// result, whose re-encoding is valid in turn.
#[verifier::external_body]
pub(crate) fn g1_mul(p: &[u8; 96], s: &[u8; 32]) -> (r: [u8; 96])
    requires
        g1_dec_ok(p@),
        fr_valid(s@),
    ensures
        r@ == g1_mul_s(p@, s@),
        g1_dec_ok(r@),
{
    let point = G1Affine::deserialize_uncompressed(&p[..]).unwrap();
    let scalar = Fr::deserialize_uncompressed(&s[..]).unwrap();
    let out = (point * scalar).into_affine();
    let mut buf = [0u8; 96];
    out.serialize_uncompressed(&mut buf[..]).unwrap();
    buf
}

/// Relies on point addition `Affine + Affine` of the curve library; the
/// decodings succeed because the operand encodings are valid, and since
/// both operands are genuine subgroup points (or infinity) of the one
/// curve, so is their sum, whose re-encoding is valid in turn.
#[verifier::external_body]
pub(crate) fn g1_add(p: &[u8; 96], q: &[u8; 96]) -> (r: [u8; 96])
    requires
        g1_dec_ok(p@),
        g1_dec_ok(q@),
    ensures
        r@ == g1_add_s(p@, q@),
        g1_dec_ok(r@),
{
    let a = G1Affine::deserialize_uncompressed(&p[..]).unwrap();
    let b = G1Affine::deserialize_uncompressed(&q[..]).unwrap();
    let out = (a + b).into_affine();
    let mut buf = [0u8; 96];
    out.serialize_uncompressed(&mut buf[..]).unwrap();
    buf
}

/// Relies on point negation `-Affine` of the curve library; the decoding
/// succeeds because the operand encoding is valid, and since a valid
/// operand is a genuine subgroup point (or infinity), so is its negative,
/// whose re-encoding is valid in turn.
#[verifier::external_body]
pub(crate) fn g1_neg(p: &[u8; 96]) -> (r: [u8; 96])
    requires
        g1_dec_ok(p@),
    ensures
        r@ == g1_neg_s(p@),
        g1_dec_ok(r@),
{
    let point = G1Affine::deserialize_uncompressed(&p[..]).unwrap();
    let out = -point;
    let mut buf = [0u8; 96];
    out.serialize_uncompressed(&mut buf[..]).unwrap();
    buf
}

/// Relies on `Bls12_381::multi_pairing` and the target-group identity test
/// `PairingOutput::is_zero`; the decodings succeed because every operand
/// encoding is valid, and the final exponentiation is defined because every
/// operand lies in its prime-order subgroup.
#[verifier::external_body]
pub(crate) fn multi_pairing_is_one(ps: &Vec<[u8; 96]>, qs: &Vec<[u8; 192]>) -> (r: bool)
    requires
        ps@.len() == qs@.len(),
        forall|i: int| 0 <= i < ps@.len() ==> g1_dec_ok(#[trigger] ps@[i]@),
        forall|i: int| 0 <= i < qs@.len() ==> g2_dec_ok(#[trigger] qs@[i]@),
    ensures
        r == pairing_prod_is_one(views96(ps@), views192(qs@)),
{
    let g1: Vec<G1Affine> =
        ps.iter().map(|p| G1Affine::deserialize_uncompressed(&p[..]).unwrap()).collect();
    let g2: Vec<G2Affine> =
        qs.iter().map(|q| G2Affine::deserialize_uncompressed(&q[..]).unwrap()).collect();
    Bls12_381::multi_pairing(g1, g2).is_zero()
}

} // verus!

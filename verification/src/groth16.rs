//! Groth16 verification over BLS12-381.
//!
//! A proof `(a, b, c)` is valid for a verification key and public inputs
//! exactly when the pairing identity
//! `e(-a, b) * e(alpha, beta) * e(vk_x, gamma) * e(c, delta) == 1`
//! holds, where `vk_x` is the public-input linear combination over the key's
//! `ic` basis.  Every key and proof point is first validated (decodable, on
//! curve, in the prime-order subgroup, not infinity), every public input is
//! checked to be a canonical scalar, and the input count is checked against
//! the basis; only then is the identity evaluated.

use vstd::prelude::*;
use crate::curve::{
    g1_add, g1_add_s, g1_check, g1_dec_ok, g1_input_valid, g1_mul, g1_mul_s, g1_neg, g1_neg_s,
    g2_check, g2_input_valid, multi_pairing_is_one, pairing_prod_is_one, views192, views96,
};
use crate::scalar::{fr_is_valid, fr_valid};

verus! {

/// Why a verification request was rejected before the pairing identity could
/// be evaluated.  A rejection is distinct from a negative answer: a proof
/// that simply does not verify yields `Ok(false)`, never an error.
#[derive(Clone, Copy, Debug, PartialEq, Eq, Structural)]
pub enum Groth16Error {
    /// A key or proof point does not decode to a valid element of its group:
    /// malformed bytes, a point off the curve or outside the prime-order
    /// subgroup, or the point at infinity.
    InvalidPoint,
    /// A public input is not the canonical encoding of a scalar-field
    /// element (its value is not below the group order).
    InvalidScalar,
    /// The number of public inputs does not match the length of the key's
    /// `ic` basis minus one.
    LengthMismatch,
    /// An underlying arithmetic primitive reported a failure of its own.
    /// The primitives used here are total on validated inputs, so this kind
    /// is never produced by `verify`; it is reserved for hosts whose
    /// primitives can fail out of band.
    PrimitiveFailure,
}

/// Groth16 verification-key material: `alpha` in G1, `beta`, `gamma` and
/// `delta` in G2, and the public-input basis `ic` in G1, all as canonical
/// uncompressed encodings.  A key for `n` public inputs has `n + 1` basis
/// points.
#[derive(Clone, Debug)]
pub struct VerificationKey {
    pub alpha: [u8; 96],
    pub beta: [u8; 192],
    pub gamma: [u8; 192],
    pub delta: [u8; 192],
    pub ic: Vec<[u8; 96]>,
}

/// A Groth16 proof triple: `a` and `c` in G1, `b` in G2, as canonical
/// uncompressed encodings.
#[derive(Clone, Debug)]
pub struct Proof {
    pub a: [u8; 96],
    pub b: [u8; 192],
    pub c: [u8; 96],
}

/// Every point of the key decodes to a valid non-infinity element of its
/// group.
pub open spec fn vk_points_valid(vk: VerificationKey) -> bool {
    &&& g1_input_valid(vk.alpha@)
    &&& g2_input_valid(vk.beta@)
    &&& g2_input_valid(vk.gamma@)
    &&& g2_input_valid(vk.delta@)
    &&& forall|i: int| 0 <= i < vk.ic@.len() ==> g1_input_valid(#[trigger] vk.ic@[i]@)
}

/// Every point of the proof decodes to a valid non-infinity element of its
/// group.
pub open spec fn proof_points_valid(pf: Proof) -> bool {
    g1_input_valid(pf.a@) && g2_input_valid(pf.b@) && g1_input_valid(pf.c@)
}

/// Every public input is the canonical encoding of a scalar-field element.
pub open spec fn scalars_valid(pubs: Seq<[u8; 32]>) -> bool {
    forall|i: int| 0 <= i < pubs.len() ==> fr_valid(#[trigger] pubs[i]@)
}

/// The element views of a sequence of scalar encodings.
pub open spec fn scalar_views(pubs: Seq<[u8; 32]>) -> Seq<Seq<u8>> {
    pubs.map_values(|a: [u8; 32]| a@)
}

/// The public-input linear combination over the `ic` basis:
/// `ic[0] + pubs[0] * ic[1] + ... + pubs[n-1] * ic[n]`.
pub open spec fn lin_comb(ic: Seq<Seq<u8>>, pubs: Seq<Seq<u8>>) -> Seq<u8>
    recommends
        ic.len() == pubs.len() + 1,
    decreases pubs.len(),
{
    if pubs.len() == 0 {
        ic[0]
    } else {
        g1_add_s(lin_comb(ic.drop_last(), pubs.drop_last()), g1_mul_s(ic.last(), pubs.last()))
    }
}

/// The Groth16 pairing identity for proof `pf` under key `vk`, with `vk_x`
/// the public-input linear combination:
/// `e(-a, b) * e(alpha, beta) * e(vk_x, gamma) * e(c, delta) == 1`.
pub open spec fn pairing_equation_holds(vk: VerificationKey, pf: Proof, vk_x: Seq<u8>) -> bool {
    pairing_prod_is_one(
        seq![g1_neg_s(pf.a@), vk.alpha@, vk_x, pf.c@],
        seq![pf.b@, vk.beta@, vk.gamma@, vk.delta@],
    )
}

/// The complete outcome of verification: each rejection with the inputs that
/// cause it, in the order the checks are made, and otherwise the boolean
/// value of the pairing identity.
pub open spec fn verify_spec(vk: VerificationKey, pf: Proof, pubs: Seq<[u8; 32]>) -> Result<
    bool,
    Groth16Error,
> {
    if !(vk_points_valid(vk) && proof_points_valid(pf)) {
        Err(Groth16Error::InvalidPoint)
    } else if !scalars_valid(pubs) {
        Err(Groth16Error::InvalidScalar)
    } else if pubs.len() != vk.ic@.len() - 1 {
        Err(Groth16Error::LengthMismatch)
    } else {
        Ok(pairing_equation_holds(vk, pf, lin_comb(views96(vk.ic@), scalar_views(pubs))))
    }
}

/// Decides whether every point of the key is a valid non-infinity element of
/// its group.
pub fn validate_vk(vk: &VerificationKey) -> (ok: bool)
    ensures
        ok == vk_points_valid(*vk),
{
    if !g1_check(&vk.alpha) {
        return false;
    }
    if !g2_check(&vk.beta) {
        return false;
    }
    if !g2_check(&vk.gamma) {
        return false;
    }
    if !g2_check(&vk.delta) {
        return false;
    }
    let n = vk.ic.len();
    let mut i: usize = 0;
    while i < n
        invariant
            n == vk.ic@.len(),
            0 <= i <= n,
            forall|j: int| 0 <= j < i ==> g1_input_valid(#[trigger] vk.ic@[j]@),
        decreases n - i,
    {
        let e = vk.ic[i];
        if !g1_check(&e) {
            return false;
        }
        i += 1;
    }
    true
}

/// Decides whether every point of the proof is a valid non-infinity element
/// of its group.
pub fn validate_proof(pf: &Proof) -> (ok: bool)
    ensures
        ok == proof_points_valid(*pf),
{
    g1_check(&pf.a) && g2_check(&pf.b) && g1_check(&pf.c)
}

/// Decides whether every public input is a canonical scalar encoding.
pub fn validate_scalars(pubs: &Vec<[u8; 32]>) -> (ok: bool)
    ensures
        ok == scalars_valid(pubs@),
{
    let n = pubs.len();
    let mut i: usize = 0;
    while i < n
        invariant
            n == pubs@.len(),
            0 <= i <= n,
            forall|j: int| 0 <= j < i ==> fr_valid(#[trigger] pubs@[j]@),
        decreases n - i,
    {
        let s = pubs[i];
        if !fr_is_valid(&s) {
            return false;
        }
        i += 1;
    }
    true
}

proof fn lemma_lin_comb_step(ic: Seq<Seq<u8>>, pubs: Seq<Seq<u8>>, i: int)
    requires
        0 <= i,
        i + 1 < ic.len(),
        i < pubs.len(),
    ensures
        lin_comb(ic.take(i + 2), pubs.take(i + 1)) == g1_add_s(
            lin_comb(ic.take(i + 1), pubs.take(i)),
            g1_mul_s(ic[i + 1], pubs[i]),
        ),
{
    let ic2 = ic.take(i + 2);
    let p2 = pubs.take(i + 1);
    assert(p2.len() == i + 1);
    assert(ic2.drop_last() =~= ic.take(i + 1));
    assert(p2.drop_last() =~= pubs.take(i));
    assert(ic2.last() == ic[i + 1]);
    assert(p2.last() == pubs[i]);
}

/// The public-input accumulator: computes
/// `vk_x = ic[0] + pubs[0] * ic[1] + ... + pubs[n-1] * ic[n]`
/// over G1, or reports `LengthMismatch` when the number of public inputs
/// does not fit the basis.
pub fn compute_vk_x(ic: &Vec<[u8; 96]>, pubs: &Vec<[u8; 32]>) -> (r: Result<
    [u8; 96],
    Groth16Error,
>)
    requires
        forall|i: int| 0 <= i < ic@.len() ==> g1_dec_ok(#[trigger] ic@[i]@),
        scalars_valid(pubs@),
    ensures
        match r {
            Ok(v) => pubs@.len() == ic@.len() - 1 && v@ == lin_comb(
                views96(ic@),
                scalar_views(pubs@),
            ) && g1_dec_ok(v@),
            Err(e) => e == Groth16Error::LengthMismatch && pubs@.len() != ic@.len() - 1,
        },
{
    if ic.len() == 0 || pubs.len() != ic.len() - 1 {
        return Err(Groth16Error::LengthMismatch);
    }
    let n = pubs.len();
    let mut acc = ic[0];
    proof {
        assert(views96(ic@).take(1)[0] == ic@[0]@);
        assert(acc@ == lin_comb(views96(ic@).take(1), scalar_views(pubs@).take(0)));
    }
    let mut i: usize = 0;
    while i < n
        invariant
            n == pubs@.len(),
            ic@.len() == n + 1,
            0 <= i <= n,
            forall|j: int| 0 <= j < ic@.len() ==> g1_dec_ok(#[trigger] ic@[j]@),
            scalars_valid(pubs@),
            g1_dec_ok(acc@),
            acc@ == lin_comb(views96(ic@).take(i + 1), scalar_views(pubs@).take(i as int)),
        decreases n - i,
    {
        let p = ic[i + 1];
        let s = pubs[i];
        proof {
            assert(fr_valid(pubs@[i as int]@));
        }
        let term = g1_mul(&p, &s);
        acc = g1_add(&acc, &term);
        proof {
            lemma_lin_comb_step(views96(ic@), scalar_views(pubs@), i as int);
            assert(views96(ic@)[i + 1] == ic@[i + 1]@);
            assert(scalar_views(pubs@)[i as int] == pubs@[i as int]@);
        }
        i += 1;
    }
    proof {
        assert(views96(ic@).take(n as int + 1) =~= views96(ic@));
        assert(scalar_views(pubs@).take(n as int) =~= scalar_views(pubs@));
    }
    Ok(acc)
}

/// The verifier entry point: validates every key and proof point, every
/// public-input scalar, and the input count, then evaluates the Groth16
/// pairing identity.  The result is exactly `verify_spec`: a boolean answer
/// on well-formed inputs, and the designated error otherwise.
pub fn verify(vk: &VerificationKey, pf: &Proof, pubs: &Vec<[u8; 32]>) -> (r: Result<
    bool,
    Groth16Error,
>)
    ensures
        r == verify_spec(*vk, *pf, pubs@),
{
    if !validate_vk(vk) {
        return Err(Groth16Error::InvalidPoint);
    }
    if !validate_proof(pf) {
        return Err(Groth16Error::InvalidPoint);
    }
    if !validate_scalars(pubs) {
        return Err(Groth16Error::InvalidScalar);
    }
    let vk_x = match compute_vk_x(&vk.ic, pubs) {
        Ok(v) => v,
        Err(e) => {
            return Err(e);
        },
    };
    let neg_a = g1_neg(&pf.a);
    let mut ps: Vec<[u8; 96]> = Vec::new();
    ps.push(neg_a);
    ps.push(vk.alpha);
    ps.push(vk_x);
    ps.push(pf.c);
    let mut qs: Vec<[u8; 192]> = Vec::new();
    qs.push(pf.b);
    qs.push(vk.beta);
    qs.push(vk.gamma);
    qs.push(vk.delta);
    let ok = multi_pairing_is_one(&ps, &qs);
    proof {
        assert(views96(ps@) =~= seq![
            g1_neg_s(pf.a@),
            vk.alpha@,
            lin_comb(views96(vk.ic@), scalar_views(pubs@)),
            pf.c@,
        ]);
        assert(views192(qs@) =~= seq![pf.b@, vk.beta@, vk.gamma@, vk.delta@]);
    }
    Ok(ok)
}

/// Verification is a pure function of its inputs: bit-identical key, proof
/// and public inputs have the one same outcome, whatever the call order or
/// surrounding calls.
pub proof fn lemma_verify_deterministic(
    vk1: VerificationKey,
    pf1: Proof,
    pubs1: Seq<[u8; 32]>,
    vk2: VerificationKey,
    pf2: Proof,
    pubs2: Seq<[u8; 32]>,
)
    requires
        vk1 == vk2,
        pf1 == pf2,
        pubs1 == pubs2,
    ensures
        verify_spec(vk1, pf1, pubs1) == verify_spec(vk2, pf2, pubs2),
{
}

/// A public-input sequence whose length does not fit the key's basis is
/// never answered with a boolean; when the points and scalars are themselves
/// well formed, the answer is exactly `LengthMismatch`.
pub proof fn lemma_length_mismatch_is_error(vk: VerificationKey, pf: Proof, pubs: Seq<[u8; 32]>)
    requires
        pubs.len() != vk.ic@.len() - 1,
    ensures
        verify_spec(vk, pf, pubs) is Err,
        vk_points_valid(vk) && proof_points_valid(pf) && scalars_valid(pubs) ==> verify_spec(
            vk,
            pf,
            pubs,
        ) == Err::<bool, Groth16Error>(Groth16Error::LengthMismatch),
{
}

/// Any key or proof point that is not a valid element of its group -- among
/// them a point on the curve but outside the prime-order subgroup -- is
/// rejected as `InvalidPoint`, never answered with a boolean.
pub proof fn lemma_invalid_point_rejected(vk: VerificationKey, pf: Proof, pubs: Seq<[u8; 32]>)
    requires
        !vk_points_valid(vk) || !proof_points_valid(pf),
    ensures
        verify_spec(vk, pf, pubs) == Err::<bool, Groth16Error>(Groth16Error::InvalidPoint),
{
}

/// A public input that is not a canonical scalar encoding is rejected as
/// `InvalidScalar` once the points themselves are well formed.
pub proof fn lemma_invalid_scalar_rejected(vk: VerificationKey, pf: Proof, pubs: Seq<[u8; 32]>)
    requires
        vk_points_valid(vk),
        proof_points_valid(pf),
        !scalars_valid(pubs),
    ensures
        verify_spec(vk, pf, pubs) == Err::<bool, Groth16Error>(Groth16Error::InvalidScalar),
{
}

/// A failure is never conflated with a negative answer, and verification
/// never degrades: the outcome is one of the three input rejections or the
/// boolean value of the pairing identity, so `PrimitiveFailure` is never
/// produced.
pub proof fn lemma_never_primitive_failure(vk: VerificationKey, pf: Proof, pubs: Seq<[u8; 32]>)
    ensures
        verify_spec(vk, pf, pubs) != Err::<bool, Groth16Error>(Groth16Error::PrimitiveFailure),
{
}

/// On fully well-formed inputs the verifier owes a boolean answer: the value
/// of the pairing identity at the public-input linear combination.
pub proof fn lemma_wellformed_inputs_get_answer(
    vk: VerificationKey,
    pf: Proof,
    pubs: Seq<[u8; 32]>,
)
    requires
        vk_points_valid(vk),
        proof_points_valid(pf),
        scalars_valid(pubs),
        pubs.len() == vk.ic@.len() - 1,
    ensures
        verify_spec(vk, pf, pubs) == Ok::<bool, Groth16Error>(
            pairing_equation_holds(vk, pf, lin_comb(views96(vk.ic@), scalar_views(pubs))),
        ),
{
}

} // verus!

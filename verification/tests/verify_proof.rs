use ark_bls12_381::{Bls12_381, Fq, Fq2, Fr, G1Affine, G2Affine};
use ark_ec::AffineRepr;
use ark_ff::Field;
use ark_groth16::Groth16;
use ark_relations::r1cs::{
    ConstraintSynthesizer, ConstraintSystemRef, LinearCombination, SynthesisError,
};
use ark_serialize::CanonicalSerialize;
use groth16_verifier::groth16::{verify, Groth16Error, Proof, VerificationKey};
use groth16_verifier::scalar::{fr_is_valid, fr_modulus_bytes};

fn g1_bytes(p: &G1Affine) -> [u8; 96] {
    let mut buf = [0u8; 96];
    p.serialize_uncompressed(&mut buf[..]).unwrap();
    buf
}

fn g2_bytes(p: &G2Affine) -> [u8; 192] {
    let mut buf = [0u8; 192];
    p.serialize_uncompressed(&mut buf[..]).unwrap();
    buf
}

fn fr_bytes(x: &Fr) -> [u8; 32] {
    let mut buf = [0u8; 32];
    x.serialize_uncompressed(&mut buf[..]).unwrap();
    buf
}

/// A circuit with one public input `c` and witnesses `a`, `b`, enforcing
/// `a * b = c`.
struct MulCircuit {
    a: Option<Fr>,
    b: Option<Fr>,
    c: Option<Fr>,
}

impl ConstraintSynthesizer<Fr> for MulCircuit {
    fn generate_constraints(self, cs: ConstraintSystemRef<Fr>) -> Result<(), SynthesisError> {
        let c = cs.new_input_variable(|| self.c.ok_or(SynthesisError::AssignmentMissing))?;
        let a = cs.new_witness_variable(|| self.a.ok_or(SynthesisError::AssignmentMissing))?;
        let b = cs.new_witness_variable(|| self.b.ok_or(SynthesisError::AssignmentMissing))?;
        cs.enforce_constraint(
            LinearCombination::from(a),
            LinearCombination::from(b),
            LinearCombination::from(c),
        )?;
        Ok(())
    }
}

/// Produces a verification key, a genuine proof, and the matching public
/// output (the value 12 = 3 * 4).
fn genuine_triple() -> (VerificationKey, Proof, [u8; 32]) {
    let mut rng = ark_std::test_rng();
    let setup_circuit = MulCircuit { a: None, b: None, c: None };
    let pk =
        Groth16::<Bls12_381>::generate_random_parameters_with_reduction(setup_circuit, &mut rng)
            .unwrap();
    let a = Fr::from(3u64);
    let b = Fr::from(4u64);
    let c = Fr::from(12u64);
    let circuit = MulCircuit { a: Some(a), b: Some(b), c: Some(c) };
    let proof =
        Groth16::<Bls12_381>::create_random_proof_with_reduction(circuit, &pk, &mut rng).unwrap();
    let vk = VerificationKey {
        alpha: g1_bytes(&pk.vk.alpha_g1),
        beta: g2_bytes(&pk.vk.beta_g2),
        gamma: g2_bytes(&pk.vk.gamma_g2),
        delta: g2_bytes(&pk.vk.delta_g2),
        ic: pk.vk.gamma_abc_g1.iter().map(g1_bytes).collect(),
    };
    let pf = Proof { a: g1_bytes(&proof.a), b: g2_bytes(&proof.b), c: g1_bytes(&proof.c) };
    (vk, pf, fr_bytes(&c))
}

/// A point on the G1 curve equation but outside the prime-order subgroup.
fn non_subgroup_g1() -> [u8; 96] {
    let mut x = Fq::from(1u64);
    loop {
        let rhs = x * x * x + Fq::from(4u64);
        if let Some(y) = rhs.sqrt() {
            let p = G1Affine::new_unchecked(x, y);
            if p.is_on_curve() && !p.is_in_correct_subgroup_assuming_on_curve() {
                return g1_bytes(&p);
            }
        }
        x += Fq::from(1u64);
    }
}

#[test]
fn test() {
    let (vk, pf, public_output) = genuine_triple();

    let res = verify(&vk, &pf, &vec![public_output]);
    assert_eq!(res, Ok(true));

    let incorrect_output = fr_bytes(&Fr::from(22u64));
    let res = verify(&vk, &pf, &vec![incorrect_output]);
    assert_eq!(res, Ok(false));
}

#[test]
fn tampered_proof_point_fails() {
    let (vk, pf, public_output) = genuine_triple();

    let mut bad_a = pf.clone();
    bad_a.a = g1_bytes(&G1Affine::generator());
    assert_eq!(verify(&vk, &bad_a, &vec![public_output]), Ok(false));

    let mut bad_b = pf.clone();
    bad_b.b = g2_bytes(&G2Affine::generator());
    assert_eq!(verify(&vk, &bad_b, &vec![public_output]), Ok(false));

    let mut bad_c = pf.clone();
    bad_c.c = g1_bytes(&G1Affine::generator());
    assert_eq!(verify(&vk, &bad_c, &vec![public_output]), Ok(false));
}

#[test]
fn length_mismatch_raises_error() {
    let (vk, pf, public_output) = genuine_triple();

    assert_eq!(verify(&vk, &pf, &vec![]), Err(Groth16Error::LengthMismatch));
    assert_eq!(
        verify(&vk, &pf, &vec![public_output, public_output]),
        Err(Groth16Error::LengthMismatch)
    );

    let mut empty_basis = vk.clone();
    empty_basis.ic = vec![];
    assert_eq!(
        verify(&empty_basis, &pf, &vec![public_output]),
        Err(Groth16Error::LengthMismatch)
    );
    assert_eq!(verify(&empty_basis, &pf, &vec![]), Err(Groth16Error::LengthMismatch));
}

#[test]
fn out_of_subgroup_point_rejected() {
    let (vk, pf, public_output) = genuine_triple();

    let mut bad = pf.clone();
    bad.a = non_subgroup_g1();
    assert_eq!(verify(&vk, &bad, &vec![public_output]), Err(Groth16Error::InvalidPoint));

    let mut bad_vk = vk.clone();
    bad_vk.alpha = non_subgroup_g1();
    assert_eq!(verify(&bad_vk, &pf, &vec![public_output]), Err(Groth16Error::InvalidPoint));
}

#[test]
fn infinity_point_rejected() {
    let (vk, pf, public_output) = genuine_triple();

    let mut bad = pf.clone();
    bad.a = g1_bytes(&G1Affine::zero());
    assert_eq!(verify(&vk, &bad, &vec![public_output]), Err(Groth16Error::InvalidPoint));

    let mut bad_vk = vk.clone();
    bad_vk.ic[0] = g1_bytes(&G1Affine::zero());
    assert_eq!(verify(&bad_vk, &pf, &vec![public_output]), Err(Groth16Error::InvalidPoint));
}

#[test]
fn off_curve_point_rejected() {
    let (vk, pf, public_output) = genuine_triple();

    // The image of a genuine point under (x, y) -> (u^2 x, u^3 y) lies on
    // another curve of the same family, where the subgroup formula of the
    // decoder still answers true; only the explicit curve-equation check
    // tells it apart.
    let g = G1Affine::generator();
    let u = Fq::from(2u64);
    let fake_g1 = G1Affine::new_unchecked(u * u * g.x, u * u * u * g.y);
    assert!(!fake_g1.is_on_curve());
    assert!(fake_g1.is_in_correct_subgroup_assuming_on_curve());

    let mut bad = pf.clone();
    bad.a = g1_bytes(&fake_g1);
    assert_eq!(verify(&vk, &bad, &vec![public_output]), Err(Groth16Error::InvalidPoint));

    let mut bad_vk = vk.clone();
    bad_vk.ic[1] = g1_bytes(&fake_g1);
    assert_eq!(verify(&bad_vk, &pf, &vec![public_output]), Err(Groth16Error::InvalidPoint));

    let h = G2Affine::generator();
    let w = Fq2::new(Fq::from(2u64), Fq::from(0u64));
    let fake_g2 = G2Affine::new_unchecked(w * w * h.x, w * w * w * h.y);
    assert!(!fake_g2.is_on_curve());
    assert!(fake_g2.is_in_correct_subgroup_assuming_on_curve());

    let mut bad_b = pf.clone();
    bad_b.b = g2_bytes(&fake_g2);
    assert_eq!(verify(&vk, &bad_b, &vec![public_output]), Err(Groth16Error::InvalidPoint));
}

#[test]
fn malformed_point_bytes_rejected() {
    let (vk, pf, public_output) = genuine_triple();

    let mut bad = pf.clone();
    bad.a = [0xffu8; 96];
    assert_eq!(verify(&vk, &bad, &vec![public_output]), Err(Groth16Error::InvalidPoint));
}

#[test]
fn invalid_scalar_rejected() {
    let (vk, pf, _) = genuine_triple();

    let res = verify(&vk, &pf, &vec![fr_modulus_bytes()]);
    assert_eq!(res, Err(Groth16Error::InvalidScalar));

    let res = verify(&vk, &pf, &vec![[0xffu8; 32]]);
    assert_eq!(res, Err(Groth16Error::InvalidScalar));
}

#[test]
fn scalar_range_check_boundaries() {
    assert!(fr_is_valid(&[0u8; 32]));
    assert!(fr_is_valid(&fr_bytes(&Fr::from(22u64))));
    assert!(!fr_is_valid(&fr_modulus_bytes()));

    let mut r_minus_one = fr_modulus_bytes();
    r_minus_one[0] = 0x00;
    assert!(fr_is_valid(&r_minus_one));

    let mut r_plus_one = fr_modulus_bytes();
    r_plus_one[0] = 0x02;
    assert!(!fr_is_valid(&r_plus_one));

    assert!(!fr_is_valid(&[0xffu8; 32]));
}

#[test]
fn verification_is_deterministic() {
    let (vk, pf, public_output) = genuine_triple();

    let first = verify(&vk, &pf, &vec![public_output]);
    let other = verify(&vk, &pf, &vec![fr_bytes(&Fr::from(22u64))]);
    let second = verify(&vk, &pf, &vec![public_output]);
    assert_eq!(first, second);
    assert_eq!(first, Ok(true));
    assert_eq!(other, Ok(false));
}

use ark_bls12_381::{Bls12_381, Fr, G1Affine, G1Projective, G2Affine};
use ark_ec::pairing::Pairing;
use ark_ec::{AffineRepr, CurveGroup, VariableBaseMSM};
use ark_ff::{FftField, Field, UniformRand, Zero};
use ark_poly::{EvaluationDomain, GeneralEvaluationDomain};
use ark_relations::r1cs::{
    ConstraintSystem, ConstraintSystemRef, LinearCombination, OptimizationGoal,
    SynthesisError as CircuitError, SynthesisMode,
};
use ark_serialize::{CanonicalDeserialize, CanonicalSerialize};
use ark_std::rand::{rngs::StdRng, RngCore, SeedableRng};
use ark_std::test_rng;
use lego_groth16::algebra::{Encoding, Encodings, Scalar, G1, G2};
use lego_groth16::link::PESubspaceSnark;
use lego_groth16::{
    prepare_verifying_key, Groth16, PreparedVerifyingKey, Proof, ProvingKey, QapInstance,
    QapWitness, R1CSToQAP, SynthesisError, VerifyingKey,
};

fn fr(x: Fr) -> Scalar {
    let mut bytes = Vec::new();
    x.serialize_compressed(&mut bytes).unwrap();
    Scalar::from_bytes(bytes).unwrap()
}

fn frs(xs: &[Fr]) -> Vec<Scalar> {
    xs.iter().map(|x| fr(*x)).collect()
}

fn n(k: u64) -> Fr {
    Fr::from(k)
}

fn point1(p: G1Affine) -> G1 {
    let mut bytes = Vec::new();
    p.serialize_compressed(&mut bytes).unwrap();
    G1::from_bytes(bytes).unwrap()
}

fn point2(p: G2Affine) -> G2 {
    let mut bytes = Vec::new();
    p.serialize_compressed(&mut bytes).unwrap();
    G2::from_bytes(bytes).unwrap()
}

fn ark_fr(x: &Scalar) -> Fr {
    Fr::deserialize_compressed(&x.to_bytes()[..]).unwrap()
}

fn ark1(p: &G1) -> G1Affine {
    G1Affine::deserialize_compressed(&p.to_bytes()[..]).unwrap()
}

fn ark2(p: &G2) -> G2Affine {
    G2Affine::deserialize_compressed(&p.to_bytes()[..]).unwrap()
}

fn g_times(k: Fr) -> G1Affine {
    (G1Affine::generator() * k).into_affine()
}

fn h_times(k: Fr) -> G2Affine {
    (G2Affine::generator() * k).into_affine()
}

/// The reduction of libsnark, as far as setup calls it.
struct Libsnark;

impl R1CSToQAP for Libsnark {
    fn h_scalars(
        _max_power: usize,
        _t: Encoding,
        _zt: Encoding,
        _delta_inverse: Encoding,
    ) -> Result<Encodings, SynthesisError> {
        unreachable!()
    }

    fn h_query_scalars(
        max_power: usize,
        t: &Scalar,
        zt: &Scalar,
        delta_inverse: &Scalar,
    ) -> Result<Vec<Scalar>, SynthesisError> {
        let (t, zt, delta_inverse) = (ark_fr(t), ark_fr(zt), ark_fr(delta_inverse));
        Ok((0..max_power).map(|i| fr(zt * delta_inverse * t.pow([i as u64]))).collect())
    }
}

/// A reduction that always fails.
struct Failing;

impl R1CSToQAP for Failing {
    fn h_scalars(
        _max_power: usize,
        _t: Encoding,
        _zt: Encoding,
        _delta_inverse: Encoding,
    ) -> Result<Encodings, SynthesisError> {
        unreachable!()
    }

    fn h_query_scalars(
        _max_power: usize,
        _t: &Scalar,
        _zt: &Scalar,
        _delta_inverse: &Scalar,
    ) -> Result<Vec<Scalar>, SynthesisError> {
        Err(SynthesisError::AssignmentMissing)
    }
}

/// Number of wires of the circuit below that are committed outside the proof.
const COMMITTED: usize = 3;

/// The circuit `(a + b + c) * (d + e + f) = g`, with `d`, `e`, `f` committed
/// and `g` public. The committed wires are the first witness wires.
fn synthesize(values: Option<[Fr; 6]>, mode: SynthesisMode) -> ConstraintSystemRef<Fr> {
    let cs = ConstraintSystem::<Fr>::new_ref();
    cs.set_optimization_goal(OptimizationGoal::Constraints);
    cs.set_mode(mode);
    let get = |i: usize| values.map(|v| v[i]).ok_or(CircuitError::AssignmentMissing);
    let d = cs.new_witness_variable(|| get(3)).unwrap();
    let e = cs.new_witness_variable(|| get(4)).unwrap();
    let f = cs.new_witness_variable(|| get(5)).unwrap();
    let a = cs.new_witness_variable(|| get(0)).unwrap();
    let b = cs.new_witness_variable(|| get(1)).unwrap();
    let c = cs.new_witness_variable(|| get(2)).unwrap();
    let g = cs
        .new_input_variable(|| {
            let v = values.ok_or(CircuitError::AssignmentMissing)?;
            Ok((v[0] + v[1] + v[2]) * (v[3] + v[4] + v[5]))
        })
        .unwrap();
    for _ in 0..10 {
        cs.enforce_constraint(
            LinearCombination::zero() + a + b + c,
            LinearCombination::zero() + d + e + f,
            LinearCombination::zero() + g,
        )
        .unwrap();
    }
    cs.finalize();
    cs
}

fn instance_map(cs: &ConstraintSystemRef<Fr>, t: Fr) -> QapInstance {
    let matrices = cs.to_matrices().unwrap();
    let num_constraints = cs.num_constraints();
    let num_instance = cs.num_instance_variables();
    let domain =
        GeneralEvaluationDomain::<Fr>::new(num_constraints + num_instance).unwrap();
    let zt = domain.evaluate_vanishing_polynomial(t);
    let u = domain.evaluate_all_lagrange_coefficients(t);
    let wires = num_instance + cs.num_witness_variables();
    let mut a = vec![Fr::zero(); wires];
    let mut b = vec![Fr::zero(); wires];
    let mut c = vec![Fr::zero(); wires];
    for i in 0..num_instance {
        a[i] = u[num_constraints + i];
    }
    for i in 0..num_constraints {
        for (coeff, index) in &matrices.a[i] {
            a[*index] += u[i] * coeff;
        }
        for (coeff, index) in &matrices.b[i] {
            b[*index] += u[i] * coeff;
        }
        for (coeff, index) in &matrices.c[i] {
            c[*index] += u[i] * coeff;
        }
    }
    QapInstance {
        a: frs(&a),
        b: frs(&b),
        c: frs(&c),
        t: fr(t),
        zt: fr(zt),
        m_raw: domain.size(),
        num_instance_variables: num_instance,
        num_committed_variables: COMMITTED,
    }
}

fn evaluate_constraint(terms: &[(Fr, usize)], assignment: &[Fr]) -> Fr {
    terms.iter().map(|(coeff, index)| assignment[*index] * coeff).sum()
}

fn witness_map(cs: &ConstraintSystemRef<Fr>) -> QapWitness {
    let matrices = cs.to_matrices().unwrap();
    let num_constraints = cs.num_constraints();
    let num_instance = cs.num_instance_variables();
    let inner = cs.borrow().unwrap();
    let full: Vec<Fr> =
        [&inner.instance_assignment[..], &inner.witness_assignment[..]].concat();
    let domain =
        GeneralEvaluationDomain::<Fr>::new(num_constraints + num_instance).unwrap();
    let size = domain.size();
    let mut a = vec![Fr::zero(); size];
    let mut b = vec![Fr::zero(); size];
    let mut c = vec![Fr::zero(); size];
    for i in 0..num_constraints {
        a[i] = evaluate_constraint(&matrices.a[i], &full);
        b[i] = evaluate_constraint(&matrices.b[i], &full);
        c[i] = evaluate_constraint(&matrices.c[i], &full);
    }
    a[num_constraints..num_constraints + num_instance].copy_from_slice(&full[..num_instance]);
    domain.ifft_in_place(&mut a);
    domain.ifft_in_place(&mut b);
    domain.ifft_in_place(&mut c);
    let coset = domain.get_coset(Fr::GENERATOR).unwrap();
    coset.fft_in_place(&mut a);
    coset.fft_in_place(&mut b);
    coset.fft_in_place(&mut c);
    let mut ab = domain.mul_polynomials_in_evaluation_domain(&a, &b);
    let vanishing = domain.evaluate_vanishing_polynomial(Fr::GENERATOR).inverse().unwrap();
    for (ab_i, c_i) in ab.iter_mut().zip(c) {
        *ab_i -= c_i;
        *ab_i *= vanishing;
    }
    coset.ifft_in_place(&mut ab);
    QapWitness {
        h: frs(&ab),
        instance_assignment: frs(&inner.instance_assignment),
        committed_assignment: frs(&inner.witness_assignment[..COMMITTED]),
        witness_assignment: frs(&inner.witness_assignment[COMMITTED..]),
    }
}

fn pedersen_gens(g: G1Affine, r: G1Affine) -> Vec<(Vec<G1>, G1)> {
    vec![(vec![point1(g)], point1(r)), (vec![point1(g)], point1(r)), (vec![point1(g)], point1(r))]
}

fn random_setup(rng: &mut StdRng, g: G1Affine, r: G1Affine) -> ProvingKey {
    let cs = synthesize(None, SynthesisMode::Setup);
    let qap = instance_map(&cs, Fr::rand(rng));
    Groth16::<Libsnark>::generate_random_parameters_with_reduction(&qap, &pedersen_gens(g, r), rng)
        .unwrap()
}

fn random_proof(rng: &mut StdRng, pk: &ProvingKey, values: [Fr; 6]) -> Proof {
    let cs = synthesize(Some(values), SynthesisMode::Prove { construct_matrices: true });
    assert!(cs.is_satisfied().unwrap());
    let (proof, link_d) =
        Groth16::<Libsnark>::create_random_proof_with_reduction(&witness_map(&cs), pk, rng)
            .unwrap();
    assert!(link_d.is_empty());
    proof
}

fn commitments(generators: &[G1Affine], values: &[Fr]) -> Vec<G1> {
    values
        .iter()
        .map(|v| point1(G1Projective::msm(generators, &[*v, Fr::zero()]).unwrap().into_affine()))
        .collect()
}

fn verify(pvk: &PreparedVerifyingKey, inputs: &[Fr], proof: &(Proof, Vec<G1>)) -> bool {
    Groth16::<Libsnark>::verify_proof(pvk, proof, &frs(inputs)).unwrap()
}

#[test]
fn prove_and_verify() {
    let n_iters = 5;
    let mut rng = StdRng::seed_from_u64(test_rng().next_u64());

    let generators = vec![G1Affine::rand(&mut rng), G1Affine::rand(&mut rng)];
    let g = generators[0];
    let r = G1Affine::rand(&mut rng);

    let pk = random_setup(&mut rng, g, r);
    let vk = pk.vk.clone();
    let pvk = prepare_verifying_key(&vk).unwrap();

    for _ in 0..n_iters {
        let a = Fr::rand(&mut rng);
        let b = Fr::rand(&mut rng);
        let c = Fr::rand(&mut rng);
        let d = Fr::rand(&mut rng);
        let e = Fr::rand(&mut rng);
        let f = Fr::rand(&mut rng);
        let g = (a + b + c) * (d + e + f);

        let proof = random_proof(&mut rng, &pk, [a, b, c, d, e, f]);
        let link_d = commitments(&generators, &[d, e, f]);
        let proof = (proof, link_d);

        assert!(verify(&pvk, &[g], &proof));
        assert!(!verify(&pvk, &[a], &proof));
    }
}

#[test]
fn product_of_sums_with_three_committed_values() {
    let mut rng = StdRng::seed_from_u64(42);
    let generators = vec![G1Affine::rand(&mut rng), G1Affine::rand(&mut rng)];
    let r = G1Affine::rand(&mut rng);
    let pk = random_setup(&mut rng, generators[0], r);
    let pvk = prepare_verifying_key(&pk.vk).unwrap();

    let values = [n(1), n(2), n(3), n(4), n(5), n(6)];
    let proof = random_proof(&mut rng, &pk, values);
    // The openings are the Pedersen commitments of 4, 5 and 6 under the bases.
    let link_d = commitments(&generators, &[n(4), n(5), n(6)]);
    assert_eq!(ark1(&link_d[0]), (generators[0] * n(4)).into_affine());
    let proof = (proof, link_d);

    assert_eq!(Groth16::<Libsnark>::verify_proof(&pvk, &proof, &frs(&[n(90)])), Ok(true));
    assert_eq!(Groth16::<Libsnark>::verify_proof(&pvk, &proof, &frs(&[n(91)])), Ok(false));
}

#[test]
fn link_proof_fails_against_other_openings() {
    let mut rng = StdRng::seed_from_u64(43);
    let generators = vec![G1Affine::rand(&mut rng), G1Affine::rand(&mut rng)];
    let r = G1Affine::rand(&mut rng);
    let pk = random_setup(&mut rng, generators[0], r);
    let pvk = prepare_verifying_key(&pk.vk).unwrap();

    let values = [n(1), n(2), n(3), n(4), n(5), n(6)];
    let proof = random_proof(&mut rng, &pk, values);
    let good = (proof.clone(), commitments(&generators, &[n(4), n(5), n(6)]));
    let swapped = (proof.clone(), commitments(&generators, &[n(5), n(4), n(6)]));
    let other = (proof.clone(), commitments(&generators, &[n(4), n(5), n(7)]));

    assert_eq!(Groth16::<Libsnark>::verify_proof(&pvk, &good, &frs(&[n(90)])), Ok(true));
    // The main pairing check still holds; only the link check fails.
    let prepared = Groth16::<Libsnark>::prepare_inputs(&pvk, &frs(&[n(90)])).unwrap();
    let main = Bls12_381::multi_pairing(
        [ark1(&proof.a), (ark1(&proof.d) + ark1(&prepared)).into_affine(), ark1(&proof.c)],
        [ark2(&proof.b), ark2(&pvk.gamma_g2_neg_pc), ark2(&pvk.delta_g2_neg_pc)],
    );
    assert_eq!(main, Bls12_381::pairing(ark1(&pk.vk.alpha_g1), ark2(&pk.vk.beta_g2)));
    assert_eq!(Groth16::<Libsnark>::verify_proof(&pvk, &swapped, &frs(&[n(90)])), Ok(false));
    assert_eq!(Groth16::<Libsnark>::verify_proof(&pvk, &other, &frs(&[n(90)])), Ok(false));

    let mut x = good.1.clone();
    x.push(proof.d.clone());
    assert!(PESubspaceSnark::verify(&pk.vk.link_pp, &pk.vk.link_vk, &x, &proof.link_pi));
    let mut x = other.1.clone();
    x.push(proof.d.clone());
    assert!(!PESubspaceSnark::verify(&pk.vk.link_pp, &pk.vk.link_vk, &x, &proof.link_pi));
}

#[test]
fn proof_with_hiding_and_blinding_scalars_verifies() {
    let mut rng = StdRng::seed_from_u64(44);
    let generators = vec![G1Affine::rand(&mut rng), G1Affine::rand(&mut rng)];
    let r = G1Affine::rand(&mut rng);
    let pk = random_setup(&mut rng, generators[0], r);
    let pvk = prepare_verifying_key(&pk.vk).unwrap();

    let values = [n(1), n(2), n(3), n(4), n(5), n(6)];
    let cs = synthesize(Some(values), SynthesisMode::Prove { construct_matrices: true });
    let link_v = [n(21), n(22), n(23)];
    let proof = Groth16::<Libsnark>::create_proof_with_reduction(
        &witness_map(&cs),
        &pk,
        &fr(Fr::rand(&mut rng)),
        &fr(Fr::rand(&mut rng)),
        &fr(n(77)),
        &frs(&link_v),
    )
    .unwrap();
    // Commitment i is value_i * g + link_v_i * r.
    let link_d: Vec<G1> = (0..3)
        .map(|i| point1((generators[0] * values[3 + i] + r * link_v[i]).into_affine()))
        .collect();
    let unblinded = commitments(&generators, &[n(4), n(5), n(6)]);
    assert!(verify(&pvk, &[n(90)], &(proof.clone(), link_d)));
    assert!(!verify(&pvk, &[n(90)], &(proof.clone(), unblinded)));
}

#[test]
fn proof_with_zero_randomness_verifies() {
    let mut rng = StdRng::seed_from_u64(45);
    let generators = vec![G1Affine::rand(&mut rng), G1Affine::rand(&mut rng)];
    let r = G1Affine::rand(&mut rng);
    let pk = random_setup(&mut rng, generators[0], r);
    let pvk = prepare_verifying_key(&pk.vk).unwrap();
    let values = [n(1), n(2), n(3), n(4), n(5), n(6)];
    let cs = synthesize(Some(values), SynthesisMode::Prove { construct_matrices: true });
    let zero = fr(Fr::zero());
    let proof = Groth16::<Libsnark>::create_proof_with_reduction(
        &witness_map(&cs),
        &pk,
        &zero,
        &fr(n(9)),
        &zero,
        &frs(&[n(0), n(0), n(0)]),
    )
    .unwrap();
    let link_d = commitments(&generators, &[n(4), n(5), n(6)]);
    assert!(verify(&pvk, &[n(90)], &(proof, link_d)));
}

#[test]
fn wrong_number_of_public_inputs_is_a_malformed_key() {
    let mut rng = StdRng::seed_from_u64(46);
    let g = G1Affine::rand(&mut rng);
    let r = G1Affine::rand(&mut rng);
    let pk = random_setup(&mut rng, g, r);
    let pvk = prepare_verifying_key(&pk.vk).unwrap();
    let proof = random_proof(&mut rng, &pk, [n(1), n(2), n(3), n(4), n(5), n(6)]);
    let proof = (proof, commitments(&[g, r], &[n(4), n(5), n(6)]));

    assert_eq!(
        Groth16::<Libsnark>::prepare_inputs(&pvk, &Vec::new()),
        Err(SynthesisError::MalformedVerifyingKey)
    );
    assert_eq!(
        Groth16::<Libsnark>::prepare_inputs(&pvk, &frs(&[n(90), n(1)])),
        Err(SynthesisError::MalformedVerifyingKey)
    );
    assert_eq!(
        Groth16::<Libsnark>::verify_proof(&pvk, &proof, &frs(&[n(90), n(1)])),
        Err(SynthesisError::MalformedVerifyingKey)
    );
    assert_eq!(
        Groth16::<Libsnark>::verify_proof(&pvk, &proof, &Vec::new()),
        Err(SynthesisError::MalformedVerifyingKey)
    );
}

#[test]
fn prepare_inputs_combines_the_instance_part_of_the_key() {
    let mut rng = StdRng::seed_from_u64(47);
    let g = G1Affine::rand(&mut rng);
    let r = G1Affine::rand(&mut rng);
    let pk = random_setup(&mut rng, g, r);
    let pvk = prepare_verifying_key(&pk.vk).unwrap();
    let prepared = Groth16::<Libsnark>::prepare_inputs(&pvk, &frs(&[n(90)])).unwrap();
    let want = ark1(&pk.vk.gamma_abc_g1.0[0]) + ark1(&pk.vk.gamma_abc_g1.0[1]) * n(90);
    assert_eq!(ark1(&prepared), want.into_affine());
}

#[test]
fn prepared_key_caches_the_pairing_and_the_negations() {
    let mut rng = StdRng::seed_from_u64(48);
    let g = G1Affine::rand(&mut rng);
    let r = G1Affine::rand(&mut rng);
    let pk = random_setup(&mut rng, g, r);
    let pvk = prepare_verifying_key(&pk.vk).unwrap();
    assert_eq!(pvk.vk, pk.vk);
    let mut want = Vec::new();
    Bls12_381::pairing(ark1(&pk.vk.alpha_g1), ark2(&pk.vk.beta_g2))
        .serialize_compressed(&mut want)
        .unwrap();
    assert_eq!(pvk.alpha_g1_beta_g2.to_bytes(), want);
    assert!(pvk.alpha_g1_beta_g2.same(&pvk.alpha_g1_beta_g2.duplicate()));
    assert!(!pvk.alpha_g1_beta_g2.is_identity());
    assert_eq!(ark2(&pvk.gamma_g2_neg_pc), (-ark2(&pk.vk.gamma_g2).into_group()).into_affine());
    assert_eq!(ark2(&pvk.delta_g2_neg_pc), (-ark2(&pk.vk.delta_g2).into_group()).into_affine());
    assert_eq!(pk.vk.duplicate(), pk.vk);
    assert_eq!(VerifyingKey::from(pvk), pk.vk);
}

/// A small program with one instance wire, one committed wire and one private
/// wire.
fn small_qap() -> QapInstance {
    QapInstance {
        a: frs(&[n(1), n(2), n(3)]),
        b: frs(&[n(4), n(5), n(6)]),
        c: frs(&[n(7), n(8), n(9)]),
        t: fr(n(29)),
        zt: fr(n(31)),
        m_raw: 3,
        num_instance_variables: 1,
        num_committed_variables: 1,
    }
}

fn small_key(gamma: Fr, delta: Fr) -> Result<ProvingKey, SynthesisError> {
    Groth16::<Libsnark>::assemble_parameters(
        &small_qap(),
        &vec![(vec![point1(g_times(n(13)))], point1(g_times(n(17))))],
        &fr(n(2)),
        &fr(n(3)),
        &fr(gamma),
        &fr(delta),
        &fr(n(11)),
        &point1(G1Affine::generator()),
        &point2(G2Affine::generator()),
        &frs(&[n(19), n(23)]),
        point1(g_times(n(37))),
        point2(h_times(n(41))),
        &frs(&[n(43), n(47)]),
        &fr(n(53)),
    )
}

#[test]
fn assembled_key_holds_the_scaled_generators() {
    let (alpha, beta, gamma, delta, eta) = (n(2), n(3), n(5), n(7), n(11));
    let pk = small_key(gamma, delta).unwrap();
    let gi = gamma.inverse().unwrap();
    let di = delta.inverse().unwrap();
    let g1s = |ps: &Vec<G1>| ps.iter().map(ark1).collect::<Vec<_>>();

    assert_eq!(ark1(&pk.vk.alpha_g1), g_times(alpha));
    assert_eq!(ark2(&pk.vk.beta_g2), h_times(beta));
    assert_eq!(ark2(&pk.vk.gamma_g2), h_times(gamma));
    assert_eq!(ark2(&pk.vk.delta_g2), h_times(delta));
    // (beta a_i + alpha b_i + c_i) / gamma for wires 0 and 1, / delta for wire 2.
    assert_eq!(g1s(&pk.vk.gamma_abc_g1.0), vec![g_times(n(3 + 8 + 7) * gi)]);
    assert_eq!(g1s(&pk.vk.gamma_abc_g1.1), vec![g_times(n(6 + 10 + 8) * gi)]);
    assert_eq!(g1s(&pk.common.l_query), vec![g_times(n(9 + 12 + 9) * di)]);
    assert_eq!(ark1(&pk.vk.eta_gamma_inv_g1), g_times(eta * gi));
    assert_eq!(ark1(&pk.common.eta_delta_inv_g1), g_times(eta * di));
    assert_eq!(ark1(&pk.common.beta_g1), g_times(beta));
    assert_eq!(ark1(&pk.common.delta_g1), g_times(delta));
    assert_eq!(g1s(&pk.common.a_query), vec![g_times(n(1)), g_times(n(2)), g_times(n(3))]);
    assert_eq!(g1s(&pk.common.b_g1_query), vec![g_times(n(4)), g_times(n(5)), g_times(n(6))]);
    assert_eq!(
        pk.common.b_g2_query.iter().map(ark2).collect::<Vec<_>>(),
        vec![h_times(n(4)), h_times(n(5)), h_times(n(6))]
    );
    assert_eq!(g1s(&pk.common.h_query), vec![g_times(n(19)), g_times(n(23))]);

    // The link argument has a row for the outside commitment and one for D.
    assert_eq!(pk.vk.link_pp.l, 2);
    assert_eq!(pk.vk.link_pp.t, 3);
    assert_eq!(ark1(&pk.vk.link_pp.g1), g_times(n(37)));
    assert_eq!(ark2(&pk.vk.link_pp.g2), h_times(n(41)));
    assert_eq!(
        g1s(&pk.common.link_ek.p),
        vec![
            g_times(n(13 * 43) + n(24) * gi * n(47)),
            g_times(n(17 * 43)),
            g_times(eta * gi * n(47)),
        ]
    );
    assert_eq!(
        pk.vk.link_vk.c.iter().map(ark2).collect::<Vec<_>>(),
        vec![h_times(n(41 * 53 * 43)), h_times(n(41 * 53 * 47))]
    );
    assert_eq!(ark2(&pk.vk.link_vk.a), h_times(n(41 * 53)));
}

#[test]
fn same_trapdoor_gives_the_same_key() {
    let first = small_key(n(5), n(7)).unwrap();
    let second = small_key(n(5), n(7)).unwrap();
    assert_eq!(first, second);
    assert_eq!(first.vk.alpha_g1.to_bytes(), second.vk.alpha_g1.to_bytes());
    assert_eq!(first.common.link_ek.p[0].to_bytes(), second.common.link_ek.p[0].to_bytes());
    assert_ne!(first, small_key(n(5), n(8)).unwrap());
}

#[test]
fn zero_gamma_or_delta_is_an_unexpected_identity() {
    assert_eq!(small_key(n(0), n(7)), Err(SynthesisError::UnexpectedIdentity));
    assert_eq!(small_key(n(5), n(0)), Err(SynthesisError::UnexpectedIdentity));
    assert_eq!(small_key(n(0), n(0)), Err(SynthesisError::UnexpectedIdentity));

    let mut rng = StdRng::seed_from_u64(49);
    let with = |gamma: Fr, delta: Fr, rng: &mut StdRng| {
        Groth16::<Libsnark>::generate_parameters_with_qap(
            &small_qap(),
            &vec![(vec![point1(g_times(n(13)))], point1(g_times(n(17))))],
            &fr(n(2)),
            &fr(n(3)),
            &fr(gamma),
            &fr(delta),
            &fr(n(11)),
            &point1(G1Affine::generator()),
            &point2(G2Affine::generator()),
            rng,
        )
    };
    assert_eq!(with(n(0), n(7), &mut rng), Err(SynthesisError::UnexpectedIdentity));
    assert_eq!(with(n(5), n(0), &mut rng), Err(SynthesisError::UnexpectedIdentity));
    let pk = with(n(5), n(7), &mut rng).unwrap();
    assert_eq!(ark2(&pk.vk.gamma_g2), h_times(n(5)));
    // Two powers of t = 29, each times zt / delta = 31 / 7.
    let di = n(7).inverse().unwrap();
    assert_eq!(
        pk.common.h_query.iter().map(ark1).collect::<Vec<_>>(),
        vec![g_times(n(31) * di), g_times(n(31) * di * n(29))]
    );
}

#[test]
fn a_failing_reduction_fails_the_setup() {
    let mut rng = StdRng::seed_from_u64(50);
    let out = Groth16::<Failing>::generate_random_parameters_with_reduction(
        &small_qap(),
        &vec![(vec![point1(g_times(n(13)))], point1(g_times(n(17))))],
        &mut rng,
    );
    assert_eq!(out, Err(SynthesisError::AssignmentMissing));
}

#[test]
fn proof_elements_follow_their_formulas() {
    let (alpha, beta, gamma, delta, eta) = (n(2), n(3), n(5), n(7), n(11));
    let pk = small_key(gamma, delta).unwrap();
    let gi = gamma.inverse().unwrap();
    let di = delta.inverse().unwrap();
    let (r, s, v) = (n(101), n(103), n(107));
    let (w1, w2) = (n(109), n(113));
    let h = [n(127), n(131), n(137)];
    let link_v = [n(139)];
    let proof = Groth16::<Libsnark>::create_proof_with_assignment(
        &pk,
        &fr(r),
        &fr(s),
        &fr(v),
        &frs(&link_v),
        &frs(&h),
        &[],
        &frs(&[w1]),
        &frs(&[w2]),
    )
    .unwrap();

    let a = r * delta + n(1) + n(2) * w1 + n(3) * w2 + alpha;
    let b = s * delta + n(4) + n(5) * w1 + n(6) * w2 + beta;
    let l = n(9 + 12 + 9) * di;
    // The quotient query has two points, so the third coefficient is not read.
    let c = s * a + r * b - r * s * delta + l * w2 + n(19) * h[0] + n(23) * h[1] - v * eta * di;
    let d = n(24) * gi * w1 + v * eta * gi;
    assert_eq!(ark1(&proof.a), g_times(a));
    assert_eq!(ark2(&proof.b), h_times(b));
    assert_eq!(ark1(&proof.c), g_times(c));
    assert_eq!(ark1(&proof.d), g_times(d));
    let ek: Vec<G1Affine> = pk.common.link_ek.p.iter().map(ark1).collect();
    assert_eq!(
        ark1(&proof.link_pi),
        G1Projective::msm(&ek, &[w1, link_v[0], v]).unwrap().into_affine()
    );

    // With r = 0 the counterpart of B in the first group is left out.
    let proof = Groth16::<Libsnark>::create_proof_with_assignment(
        &pk,
        &fr(n(0)),
        &fr(s),
        &fr(v),
        &frs(&link_v),
        &frs(&h),
        &[],
        &frs(&[w1]),
        &frs(&[w2]),
    )
    .unwrap();
    let a = n(1) + n(2) * w1 + n(3) * w2 + alpha;
    let c = s * a + l * w2 + n(19) * h[0] + n(23) * h[1] - v * eta * di;
    assert_eq!(ark1(&proof.a), g_times(a));
    assert_eq!(ark1(&proof.c), g_times(c));
}

fn concat(parts: &[Vec<u8>]) -> Vec<u8> {
    parts.iter().flat_map(|p| p.iter().copied()).collect()
}

fn ser<T: CanonicalSerialize>(x: &T) -> Vec<u8> {
    let mut bytes = Vec::new();
    x.serialize_compressed(&mut bytes).unwrap();
    bytes
}

fn ark1s(ps: &Vec<G1>) -> Vec<G1Affine> {
    ps.iter().map(ark1).collect()
}

fn ark2s(ps: &Vec<G2>) -> Vec<G2Affine> {
    ps.iter().map(ark2).collect()
}

fn small_proof(pk: &ProvingKey) -> Proof {
    Groth16::<Libsnark>::create_proof_with_assignment(
        pk,
        &fr(n(101)),
        &fr(n(103)),
        &fr(n(107)),
        &frs(&[n(139)]),
        &frs(&[n(127), n(131)]),
        &[],
        &frs(&[n(109)]),
        &frs(&[n(113)]),
    )
    .unwrap()
}

/// The verification key as the serialization crate writes its fields.
fn vk_bytes(vk: &VerifyingKey) -> Vec<u8> {
    concat(&[
        ser(&ark1(&vk.alpha_g1)),
        ser(&ark2(&vk.beta_g2)),
        ser(&ark2(&vk.gamma_g2)),
        ser(&ark2(&vk.delta_g2)),
        ser(&(ark1s(&vk.gamma_abc_g1.0), ark1s(&vk.gamma_abc_g1.1))),
        ser(&ark1(&vk.eta_gamma_inv_g1)),
        ser(&vk.link_pp.l),
        ser(&vk.link_pp.t),
        ser(&ark1(&vk.link_pp.g1)),
        ser(&ark2(&vk.link_pp.g2)),
        ser(&ark2s(&vk.link_vk.c)),
        ser(&ark2(&vk.link_vk.a)),
    ])
}

#[test]
fn proof_is_encoded_field_by_field_and_read_back() {
    let pk = small_key(n(5), n(7)).unwrap();
    let proof = small_proof(&pk);
    let bytes = proof.encode();
    assert_eq!(bytes.len(), 48 + 96 + 48 + 48 + 48);
    assert_eq!(
        bytes,
        concat(&[
            proof.a.to_bytes(),
            proof.b.to_bytes(),
            proof.c.to_bytes(),
            proof.d.to_bytes(),
            proof.link_pi.to_bytes(),
        ])
    );
    assert_eq!(Proof::decode(&bytes), Some(proof));
}

#[test]
fn proof_decoding_rejects_what_is_no_encoding() {
    let pk = small_key(n(5), n(7)).unwrap();
    let bytes = small_proof(&pk).encode();
    assert_eq!(Proof::decode(&Vec::new()), None);
    assert_eq!(Proof::decode(&bytes[..bytes.len() - 1].to_vec()), None);
    let mut long = bytes.clone();
    long.push(0);
    assert_eq!(Proof::decode(&long), None);
    // Without the compression flag the first point does not decode.
    let mut broken = bytes.clone();
    broken[0] &= 0x7f;
    assert_eq!(Proof::decode(&broken), None);
    // A point of the first group where one of the second is due.
    let mut swapped = bytes.clone();
    swapped.copy_within(0..48, 48);
    assert_eq!(Proof::decode(&swapped), None);
}

#[test]
fn verifying_key_is_encoded_as_its_fields_in_order() {
    let pk = small_key(n(5), n(7)).unwrap();
    let bytes = pk.vk.encode();
    assert_eq!(bytes, vk_bytes(&pk.vk));
    // Four points, then the count of the instance part: one, in eight bytes.
    assert_eq!(bytes[336..344], [1u8, 0, 0, 0, 0, 0, 0, 0]);
    assert_eq!(bytes.len(), 336 + (8 + 48) + (8 + 48) + 48 + 16 + 144 + (8 + 2 * 96) + 96);
    assert_eq!(VerifyingKey::decode(&bytes), Some(pk.vk));
}

#[test]
fn proving_key_is_encoded_as_its_fields_in_order() {
    let pk = small_key(n(5), n(7)).unwrap();
    let bytes = pk.encode();
    let common = &pk.common;
    assert_eq!(
        bytes,
        concat(&[
            vk_bytes(&pk.vk),
            ser(&ark1(&common.beta_g1)),
            ser(&ark1(&common.delta_g1)),
            ser(&ark1(&common.eta_delta_inv_g1)),
            ser(&ark1s(&common.a_query)),
            ser(&ark1s(&common.b_g1_query)),
            ser(&ark2s(&common.b_g2_query)),
            ser(&ark1s(&common.h_query)),
            ser(&ark1s(&common.l_query)),
            ser(&ark1s(&common.link_ek.p)),
        ])
    );
    assert_eq!(ProvingKey::decode(&bytes), Some(pk));
}

#[test]
fn keys_of_a_circuit_are_read_back() {
    let mut rng = StdRng::seed_from_u64(51);
    let g = G1Affine::rand(&mut rng);
    let r = G1Affine::rand(&mut rng);
    let pk = random_setup(&mut rng, g, r);
    assert_eq!(ProvingKey::decode(&pk.encode()), Some(pk.clone()));
    assert_eq!(VerifyingKey::decode(&pk.vk.encode()), Some(pk.vk.clone()));
    let proof = random_proof(&mut rng, &pk, [n(1), n(2), n(3), n(4), n(5), n(6)]);
    assert_eq!(Proof::decode(&proof.encode()), Some(proof));
}

#[test]
fn key_decoding_rejects_what_is_no_encoding() {
    let pk = small_key(n(5), n(7)).unwrap();
    let bytes = pk.encode();
    assert_eq!(ProvingKey::decode(&Vec::new()), None);
    assert_eq!(ProvingKey::decode(&bytes[..bytes.len() - 1].to_vec()), None);
    assert_eq!(ProvingKey::decode(&pk.vk.encode()), None);
    assert_eq!(VerifyingKey::decode(&bytes), None);
    let mut long = bytes.clone();
    long.push(0);
    assert_eq!(ProvingKey::decode(&long), None);
    // A count that promises more points than there are bytes.
    let mut vk_bytes = pk.vk.encode();
    vk_bytes[336] = 2;
    assert_eq!(VerifyingKey::decode(&vk_bytes), None);
    vk_bytes[336..344].copy_from_slice(&[0xff; 8]);
    assert_eq!(VerifyingKey::decode(&vk_bytes), None);
}

#[test]
fn same_trapdoor_gives_the_same_bytes() {
    let first = small_key(n(5), n(7)).unwrap();
    let second = small_key(n(5), n(7)).unwrap();
    assert_eq!(first.encode(), second.encode());
    assert_eq!(first.vk.encode(), second.vk.encode());
    assert_ne!(first.encode(), small_key(n(5), n(8)).unwrap().encode());
}

#[test]
fn link_key_lays_the_commitments_side_by_side() {
    // One instance wire, three committed wires, one private wire; the first
    // outside commitment commits to two values, the second to one.
    let qap = QapInstance {
        a: frs(&[n(1), n(2), n(3), n(4), n(5)]),
        b: frs(&[n(6), n(7), n(8), n(9), n(10)]),
        c: frs(&[n(11), n(12), n(13), n(14), n(15)]),
        t: fr(n(29)),
        zt: fr(n(31)),
        m_raw: 2,
        num_instance_variables: 1,
        num_committed_variables: 3,
    };
    let gens = vec![
        (vec![point1(g_times(n(101))), point1(g_times(n(103)))], point1(g_times(n(107)))),
        (vec![point1(g_times(n(109)))], point1(g_times(n(113)))),
    ];
    let (alpha, beta, gamma, eta) = (n(2), n(3), n(5), n(11));
    let (t0, t1, t2) = (n(43), n(47), n(53));
    let pk = Groth16::<Libsnark>::assemble_parameters(
        &qap,
        &gens,
        &fr(alpha),
        &fr(beta),
        &fr(gamma),
        &fr(n(7)),
        &fr(eta),
        &point1(G1Affine::generator()),
        &point2(G2Affine::generator()),
        &frs(&[n(19)]),
        point1(g_times(n(37))),
        point2(h_times(n(41))),
        &frs(&[t0, t1, t2]),
        &fr(n(59)),
    )
    .unwrap();
    let gi = gamma.inverse().unwrap();
    let abc = |i: u64| (beta * n(1 + i) + alpha * n(6 + i) + n(11 + i)) * gi;

    assert_eq!(pk.vk.gamma_abc_g1.0.len(), 1);
    assert_eq!(pk.vk.gamma_abc_g1.1.len(), 3);
    assert_eq!(pk.common.l_query.len(), 1);
    assert_eq!(pk.vk.link_pp.l, 3);
    assert_eq!(pk.vk.link_pp.t, 6);
    assert_eq!(pk.vk.link_vk.c.len(), 3);
    assert_eq!(
        ark1s(&pk.vk.gamma_abc_g1.1),
        vec![g_times(abc(1)), g_times(abc(2)), g_times(abc(3))]
    );
    assert_eq!(
        ark1s(&pk.common.link_ek.p),
        vec![
            g_times(n(101) * t0 + abc(1) * t2),
            g_times(n(103) * t0 + abc(2) * t2),
            g_times(n(109) * t1 + abc(3) * t2),
            g_times(n(107) * t0),
            g_times(n(113) * t1),
            g_times(eta * gi * t2),
        ]
    );
}

#[test]
fn key_without_instance_points_takes_no_inputs_at_all() {
    let mut vk = small_key(n(5), n(7)).unwrap().vk;
    vk.gamma_abc_g1.0.clear();
    let pvk = prepare_verifying_key(&vk).unwrap();
    assert_eq!(
        Groth16::<Libsnark>::prepare_inputs(&pvk, &Vec::new()),
        Err(SynthesisError::MalformedVerifyingKey)
    );
    assert_eq!(
        Groth16::<Libsnark>::prepare_inputs(&pvk, &frs(&[n(1)])),
        Err(SynthesisError::MalformedVerifyingKey)
    );
}

#[test]
fn prepared_inputs_of_a_key_with_one_point_are_that_point() {
    let pk = small_key(n(5), n(7)).unwrap();
    let pvk = prepare_verifying_key(&pk.vk).unwrap();
    let prepared = Groth16::<Libsnark>::prepare_inputs(&pvk, &Vec::new()).unwrap();
    assert_eq!(prepared, pk.vk.gamma_abc_g1.0[0]);
}

#[test]
fn verification_with_prepared_inputs_agrees_with_verification() {
    let mut rng = StdRng::seed_from_u64(52);
    let generators = vec![G1Affine::rand(&mut rng), G1Affine::rand(&mut rng)];
    let r = G1Affine::rand(&mut rng);
    let pk = random_setup(&mut rng, generators[0], r);
    let pvk = prepare_verifying_key(&pk.vk).unwrap();
    let proof = random_proof(&mut rng, &pk, [n(1), n(2), n(3), n(4), n(5), n(6)]);
    let proof = (proof, commitments(&generators, &[n(4), n(5), n(6)]));
    let right = Groth16::<Libsnark>::prepare_inputs(&pvk, &frs(&[n(90)])).unwrap();
    let wrong = Groth16::<Libsnark>::prepare_inputs(&pvk, &frs(&[n(91)])).unwrap();
    assert_eq!(
        Groth16::<Libsnark>::verify_proof_with_prepared_inputs(&pvk, &proof, &right),
        Ok(true)
    );
    assert_eq!(
        Groth16::<Libsnark>::verify_proof_with_prepared_inputs(&pvk, &proof, &wrong),
        Ok(false)
    );
}

#[test]
fn setup_fails_first_on_zero_scalars_and_then_as_the_reduction_does() {
    let mut rng = StdRng::seed_from_u64(53);
    let with = |gamma: Fr, delta: Fr, rng: &mut StdRng| {
        Groth16::<Failing>::generate_parameters_with_qap(
            &small_qap(),
            &vec![(vec![point1(g_times(n(13)))], point1(g_times(n(17))))],
            &fr(n(2)),
            &fr(n(3)),
            &fr(gamma),
            &fr(delta),
            &fr(n(11)),
            &point1(G1Affine::generator()),
            &point2(G2Affine::generator()),
            rng,
        )
    };
    assert_eq!(with(n(0), n(7), &mut rng), Err(SynthesisError::UnexpectedIdentity));
    assert_eq!(with(n(5), n(0), &mut rng), Err(SynthesisError::UnexpectedIdentity));
    assert_eq!(with(n(5), n(7), &mut rng), Err(SynthesisError::AssignmentMissing));
}

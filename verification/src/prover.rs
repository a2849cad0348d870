//! Construction of proofs.

use crate::algebra::{
    fr_product, g1_difference, g1_identity, g1_msm, g1_scaled, g1_sum, g2_msm, g2_scaled, g2_sum,
    scalar_zero, views, Scalar, G1, G2,
};
use crate::data_structures::{Proof, ProofView, ProvingKey, ProvingKeyView};
use crate::error::SynthesisError;
use crate::link::snark::PESubspaceSnark;
use crate::r1cs_to_qap::{QapWitness, R1CSToQAP};
use crate::Groth16;
use vstd::prelude::*;
use vstd::slice::slice_subrange;

verus! {

/// `initial + query[0] + sum(assignment[i] * query[i + 1]) + vk_param` in the
/// first group.
pub open spec fn g1_coeff(
    initial: Seq<u8>,
    query: Seq<Seq<u8>>,
    vk_param: Seq<u8>,
    assignment: Seq<Seq<u8>>,
) -> Seq<u8> {
    g1_sum(
        g1_sum(g1_sum(initial, query[0]), g1_msm(query.subrange(1, query.len() as int), assignment)),
        vk_param,
    )
}

/// `initial + query[0] + sum(assignment[i] * query[i + 1]) + vk_param` in the
/// second group.
pub open spec fn g2_coeff(
    initial: Seq<u8>,
    query: Seq<Seq<u8>>,
    vk_param: Seq<u8>,
    assignment: Seq<Seq<u8>>,
) -> Seq<u8> {
    g2_sum(
        g2_sum(g2_sum(initial, query[0]), g2_msm(query.subrange(1, query.len() as int), assignment)),
        vk_param,
    )
}

/// The `A` element of the proof.
pub open spec fn proof_a(pk: ProvingKeyView, r: Seq<u8>, assignment: Seq<Seq<u8>>) -> Seq<u8> {
    g1_coeff(g1_scaled(pk.common.delta_g1, r), pk.common.a_query, pk.vk.alpha_g1, assignment)
}

/// The `B` element of the proof.
pub open spec fn proof_b(pk: ProvingKeyView, s: Seq<u8>, assignment: Seq<Seq<u8>>) -> Seq<u8> {
    g2_coeff(g2_scaled(pk.vk.delta_g2, s), pk.common.b_g2_query, pk.vk.beta_g2, assignment)
}

/// The counterpart of `B` in the first group, which is only needed, and only
/// computed, where `r` is not zero.
pub open spec fn proof_b_g1(
    pk: ProvingKeyView,
    r: Seq<u8>,
    s: Seq<u8>,
    assignment: Seq<Seq<u8>>,
) -> Seq<u8> {
    if r != scalar_zero() {
        g1_coeff(g1_scaled(pk.common.delta_g1, s), pk.common.b_g1_query, pk.common.beta_g1, assignment)
    } else {
        g1_identity()
    }
}

/// The `C` element of the proof:
/// `s A + r B_1 - r s delta G + L . aux + H . h - v (eta / delta) G`.
pub open spec fn proof_c(
    pk: ProvingKeyView,
    r: Seq<u8>,
    s: Seq<u8>,
    v: Seq<u8>,
    h: Seq<Seq<u8>>,
    aux: Seq<Seq<u8>>,
    assignment: Seq<Seq<u8>>,
) -> Seq<u8> {
    let s_a = g1_scaled(proof_a(pk, r, assignment), s);
    let r_b = g1_scaled(proof_b_g1(pk, r, s, assignment), r);
    let r_s_delta = g1_scaled(pk.common.delta_g1, fr_product(r, s));
    let l_aux = g1_msm(pk.common.l_query, aux);
    let h_acc = g1_msm(pk.common.h_query, h);
    g1_difference(
        g1_sum(g1_sum(g1_difference(g1_sum(s_a, r_b), r_s_delta), l_aux), h_acc),
        g1_scaled(pk.common.eta_delta_inv_g1, v),
    )
}

/// The `D` element of the proof: the commitment to the committed values, hidden
/// by `v`.
pub open spec fn proof_d(pk: ProvingKeyView, v: Seq<u8>, committed: Seq<Seq<u8>>) -> Seq<u8> {
    g1_sum(g1_msm(pk.vk.gamma_abc_committed, committed), g1_scaled(pk.vk.eta_gamma_inv_g1, v))
}

/// The proof for the given randomness and assignment.
pub open spec fn proof_for(
    pk: ProvingKeyView,
    r: Seq<u8>,
    s: Seq<u8>,
    v: Seq<u8>,
    link_v: Seq<Seq<u8>>,
    h: Seq<Seq<u8>>,
    input: Seq<Seq<u8>>,
    committed: Seq<Seq<u8>>,
    aux: Seq<Seq<u8>>,
) -> ProofView {
    let assignment = input + committed + aux;
    ProofView {
        a: proof_a(pk, r, assignment),
        b: proof_b(pk, s, assignment),
        c: proof_c(pk, r, s, v, h, aux, assignment),
        d: proof_d(pk, v, committed),
        link_pi: g1_msm(pk.common.link_ek, committed + link_v + seq![v]),
    }
}

/// Whether the key has what a proof with these sizes reads: a first point in
/// each query that is used, and room in the link parameters for the link
/// witness.
pub open spec fn can_prove(pk: ProvingKey, r: Seq<u8>, committed: nat, link_v: nat) -> bool {
    &&& pk.common.a_query@.len() >= 1
    &&& pk.common.b_g2_query@.len() >= 1
    &&& r != scalar_zero() ==> pk.common.b_g1_query@.len() >= 1
    &&& pk.vk.link_pp.t >= committed + link_v + 1
}

/// `n` times the scalar zero.
pub open spec fn zeros(n: nat) -> Seq<Seq<u8>> {
    Seq::new(n, |i: int| scalar_zero())
}

impl<QAP: R1CSToQAP> Groth16<QAP> {
    /// The proof for the randomness `r`, `s`, the hiding scalar `v` of the
    /// commitment `D`, the blinding scalars `link_v` of the outside
    /// commitments, the quotient coefficients `h` and the assignment in its
    /// three parts.
    pub fn create_proof_with_assignment(
        pk: &ProvingKey,
        r: &Scalar,
        s: &Scalar,
        v: &Scalar,
        link_v: &[Scalar],
        h: &[Scalar],
        input_assignment: &[Scalar],
        committed_assignment: &[Scalar],
        aux_assignment: &[Scalar],
    ) -> (out: Result<Proof, SynthesisError>)
        requires
            can_prove(*pk, r@, committed_assignment@.len(), link_v@.len()),
        ensures
            out.is_ok(),
            out.unwrap()@ == proof_for(
                pk@,
                r@,
                s@,
                v@,
                views(link_v@),
                views(h@),
                views(input_assignment@),
                views(committed_assignment@),
                views(aux_assignment@),
            ),
    {
        let vk = &pk.vk;
        let common = &pk.common;
        let h_acc = G1::msm(common.h_query.as_slice(), h);
        let l_aux_acc = G1::msm(common.l_query.as_slice(), aux_assignment);
        let gamma_abc_inputs_acc = G1::msm(vk.gamma_abc_g1.1.as_slice(), committed_assignment);
        let r_s_delta_g1 = common.delta_g1.scale(&r.times(s));

        let mut assignment = Self::copies(input_assignment);
        let mut committed = Self::copies(committed_assignment);
        let mut aux = Self::copies(aux_assignment);
        assignment.append(&mut committed);
        assignment.append(&mut aux);
        assert(views(assignment@) =~= views(input_assignment@) + views(committed_assignment@)
            + views(aux_assignment@));

        // Compute A
        let r_g1 = common.delta_g1.scale(r);
        let g_a = Self::calculate_coeff(r_g1, &common.a_query, &vk.alpha_g1, &assignment);
        let s_g_a = g_a.scale(s);

        // Compute B in the first group if needed
        let g1_b = if !r.is_zero() {
            let s_g1 = common.delta_g1.scale(s);
            Self::calculate_coeff(s_g1, &common.b_g1_query, &common.beta_g1, &assignment)
        } else {
            G1::identity()
        };

        // Compute B in the second group
        let s_g2 = vk.delta_g2.scale(s);
        let g2_b = Self::calculate_coeff_g2(s_g2, &common.b_g2_query, &vk.beta_g2, &assignment);
        let r_g1_b = g1_b.scale(r);

        // Finish C
        let mut g_c = s_g_a;
        g_c = g_c.plus(&r_g1_b);
        g_c = g_c.minus(&r_s_delta_g1);
        g_c = g_c.plus(&l_aux_acc);
        g_c = g_c.plus(&h_acc);
        g_c = g_c.minus(&common.eta_delta_inv_g1.scale(v));

        // Compute D
        let g_d = gamma_abc_inputs_acc.plus(&vk.eta_gamma_inv_g1.scale(v));

        let mut ss_snark_witness = Self::copies(committed_assignment);
        let mut blinding = Self::copies(link_v);
        ss_snark_witness.append(&mut blinding);
        ss_snark_witness.push(v.duplicate());
        assert(views(ss_snark_witness@) =~= views(committed_assignment@) + views(link_v@)
            + seq![v@]);

        let link_pi = PESubspaceSnark::prove(&vk.link_pp, &common.link_ek, &ss_snark_witness);

        Ok(Proof { a: g_a, b: g2_b, c: g_c, d: g_d, link_pi })
    }

    /// A proof whose randomness `r` and `s` is drawn from `rng`. The hiding
    /// scalar of `D` and the blinding scalars of the outside commitments are
    /// zero, and no outside commitment is returned.
    pub fn create_random_proof_with_reduction(
        witness: &QapWitness,
        pk: &ProvingKey,
        rng: &mut ark_std::rand::rngs::StdRng,
    ) -> (out: Result<(Proof, Vec<G1>), SynthesisError>)
        requires
            witness.instance_assignment@.len() >= 1,
            pk.vk.link_pp.l >= 1,
            pk.common.a_query@.len() >= 1,
            pk.common.b_g1_query@.len() >= 1,
            pk.common.b_g2_query@.len() >= 1,
            pk.vk.link_pp.t >= witness.committed_assignment@.len() + pk.vk.link_pp.l,
        ensures
            out.is_ok(),
            out.unwrap().1@.len() == 0,
            exists|r: Seq<u8>, s: Seq<u8>|
                out.unwrap().0@ == #[trigger] proof_for(
                    pk@,
                    r,
                    s,
                    scalar_zero(),
                    zeros((pk.vk.link_pp.l - 1) as nat),
                    views(witness.h@),
                    views(witness.instance_assignment@).subrange(
                        1,
                        witness.instance_assignment@.len() as int,
                    ),
                    views(witness.committed_assignment@),
                    views(witness.witness_assignment@),
                ),
    {
        let r = Scalar::random(rng);
        let s = Scalar::random(rng);
        let v = Scalar::zero();
        let mut link_v: Vec<Scalar> = Vec::new();
        let mut i: usize = 0;
        while i < pk.vk.link_pp.l - 1
            invariant
                pk.vk.link_pp.l >= 1,
                i <= pk.vk.link_pp.l - 1,
                link_v@.len() == i,
                forall|j: int| 0 <= j < i ==> (#[trigger] link_v@[j])@ == scalar_zero(),
            decreases pk.vk.link_pp.l - 1 - i,
        {
            link_v.push(Scalar::zero());
            i += 1;
        }
        assert(views(link_v@) =~= zeros((pk.vk.link_pp.l - 1) as nat));
        match Self::create_proof_with_reduction(witness, pk, &r, &s, &v, &link_v) {
            Ok(proof) => Ok((proof, Vec::new())),
            Err(e) => Err(e),
        }
    }

    /// The proof for the randomness `r`, `s`, the hiding scalar `v` and the
    /// blinding scalars `link_v`, from the witness that the reduction gave. The
    /// constant one at the head of the instance values is left out of the
    /// assignment.
    pub fn create_proof_with_reduction(
        witness: &QapWitness,
        pk: &ProvingKey,
        r: &Scalar,
        s: &Scalar,
        v: &Scalar,
        link_v: &Vec<Scalar>,
    ) -> (out: Result<Proof, SynthesisError>)
        requires
            witness.instance_assignment@.len() >= 1,
            can_prove(*pk, r@, witness.committed_assignment@.len(), link_v@.len()),
        ensures
            out.is_ok(),
            out.unwrap()@ == proof_for(
                pk@,
                r@,
                s@,
                v@,
                views(link_v@),
                views(witness.h@),
                views(witness.instance_assignment@).subrange(
                    1,
                    witness.instance_assignment@.len() as int,
                ),
                views(witness.committed_assignment@),
                views(witness.witness_assignment@),
            ),
    {
        let input = slice_subrange(
            witness.instance_assignment.as_slice(),
            1,
            witness.instance_assignment.len(),
        );
        assert(views(input@) =~= views(witness.instance_assignment@).subrange(
            1,
            witness.instance_assignment@.len() as int,
        ));
        Self::create_proof_with_assignment(
            pk,
            r,
            s,
            v,
            link_v.as_slice(),
            witness.h.as_slice(),
            input,
            witness.committed_assignment.as_slice(),
            witness.witness_assignment.as_slice(),
        )
    }

    /// Copies of the scalars of a slice, in order.
    fn copies(v: &[Scalar]) -> (out: Vec<Scalar>)
        ensures
            views(out@) == views(v@),
    {
        let mut out: Vec<Scalar> = Vec::new();
        let mut i: usize = 0;
        while i < v.len()
            invariant
                i <= v@.len(),
                out@.len() == i,
                forall|j: int| 0 <= j < i ==> out@[j]@ == v@[j]@,
            decreases v@.len() - i,
        {
            out.push(v[i].duplicate());
            i += 1;
        }
        assert(views(out@) =~= views(v@));
        out
    }

    fn calculate_coeff(initial: G1, query: &Vec<G1>, vk_param: &G1, assignment: &Vec<Scalar>) -> (res:
        G1)
        requires
            query@.len() >= 1,
        ensures
            res@ == g1_coeff(initial@, views(query@), vk_param@, views(assignment@)),
    {
        let el = &query[0];
        let rest = slice_subrange(query.as_slice(), 1, query.len());
        assert(views(rest@) =~= views(query@).subrange(1, query@.len() as int));
        let acc = G1::msm(rest, assignment.as_slice());
        let mut res = initial;
        res = res.plus(el);
        res = res.plus(&acc);
        res = res.plus(vk_param);
        res
    }

    fn calculate_coeff_g2(initial: G2, query: &Vec<G2>, vk_param: &G2, assignment: &Vec<Scalar>) -> (res:
        G2)
        requires
            query@.len() >= 1,
        ensures
            res@ == g2_coeff(initial@, views(query@), vk_param@, views(assignment@)),
    {
        let el = &query[0];
        let rest = slice_subrange(query.as_slice(), 1, query.len());
        assert(views(rest@) =~= views(query@).subrange(1, query@.len() as int));
        let acc = G2::msm(rest, assignment.as_slice());
        let mut res = initial;
        res = res.plus(el);
        res = res.plus(&acc);
        res = res.plus(vk_param);
        res
    }
}

} // verus!

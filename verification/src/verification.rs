//! Verification of proofs.

use crate::algebra::{
    g1_msm, g1_sum, g2_negated, pairing_product, scalar_copies, scalar_one, views, Gt, Scalar, G1,
    G2,
};
use crate::data_structures::{PreparedVerifyingKey, Proof, VerifyingKey};
use crate::error::SynthesisError;
use crate::link::snark::{link_accepts, PESubspaceSnark};
use crate::r1cs_to_qap::R1CSToQAP;
use crate::Groth16;
use vstd::prelude::*;

verus! {

/// The pairing of `alpha * G` with `beta * H` for the key `vk`, where it has a
/// value.
pub open spec fn alpha_beta_pairing(vk: VerifyingKey) -> Option<Seq<u8>> {
    pairing_product(seq![vk.alpha_g1@], seq![vk.beta_g2@])
}

/// The public inputs with the constant one before them.
pub open spec fn with_leading_one(public_inputs: Seq<Seq<u8>>) -> Seq<Seq<u8>> {
    seq![scalar_one()] + public_inputs
}

/// The pairing product that the main check compares with the cached pairing.
pub open spec fn main_pairing(
    pvk: PreparedVerifyingKey,
    proof: Proof,
    prepared_inputs: Seq<u8>,
) -> Option<Seq<u8>> {
    pairing_product(
        seq![proof.a@, g1_sum(proof.d@, prepared_inputs), proof.c@],
        seq![proof.b@, pvk.gamma_g2_neg_pc@, pvk.delta_g2_neg_pc@],
    )
}

/// Whether the proof with its outside commitments is accepted for the
/// prepared inputs: the main pairing check and the link check both hold.
pub open spec fn accepts(
    pvk: PreparedVerifyingKey,
    proof: Proof,
    link_d: Seq<Seq<u8>>,
    prepared_inputs: Seq<u8>,
) -> bool {
    &&& main_pairing(pvk, proof, prepared_inputs) == Some(pvk.alpha_g1_beta_g2@)
    &&& link_accepts(pvk.vk.link_vk@, link_d.push(proof.d@), proof.link_pi@)
}

/// Whether the link parameters of `pvk` have the shape that `n` outside
/// commitments ask for.
pub open spec fn link_shape(pvk: PreparedVerifyingKey, n: nat) -> bool {
    &&& pvk.vk.link_pp.l == n + 1
    &&& pvk.vk.link_vk.c@.len() >= n + 1
}

/// Prepares the verifying key `vk` for use in proof verification. Fails with
/// `UnexpectedIdentity` exactly where the pairing of `alpha * G` with
/// `beta * H` has no value.
pub fn prepare_verifying_key(vk: &VerifyingKey) -> (out: Result<PreparedVerifyingKey, SynthesisError>)
    ensures
        alpha_beta_pairing(*vk).is_none() <==> out == Err::<PreparedVerifyingKey, SynthesisError>(
            SynthesisError::UnexpectedIdentity,
        ),
        out.is_ok() <==> alpha_beta_pairing(*vk).is_some(),
        out.is_ok() ==> {
            let pvk = out.unwrap();
            &&& pvk.vk@ == vk@
            &&& Some(pvk.alpha_g1_beta_g2@) == alpha_beta_pairing(*vk)
            &&& pvk.gamma_g2_neg_pc@ == g2_negated(vk.gamma_g2@)
            &&& pvk.delta_g2_neg_pc@ == g2_negated(vk.delta_g2@)
        },
{
    let mut a: Vec<G1> = Vec::new();
    a.push(vk.alpha_g1.duplicate());
    let mut b: Vec<G2> = Vec::new();
    b.push(vk.beta_g2.duplicate());
    assert(views(a@) =~= seq![vk.alpha_g1@]);
    assert(views(b@) =~= seq![vk.beta_g2@]);
    match Gt::pairing_product(&a, &b) {
        Some(alpha_g1_beta_g2) => Ok(
            PreparedVerifyingKey {
                vk: vk.duplicate(),
                alpha_g1_beta_g2,
                gamma_g2_neg_pc: vk.gamma_g2.negate(),
                delta_g2_neg_pc: vk.delta_g2.negate(),
            },
        ),
        None => Err(SynthesisError::UnexpectedIdentity),
    }
}

impl<QAP: R1CSToQAP> Groth16<QAP> {
    /// Prepares the public inputs for `verify_proof_with_prepared_inputs`:
    /// their combination with the instance part of the key, the constant one
    /// first. Fails with `MalformedVerifyingKey` exactly where the key has not
    /// one point more than there are inputs.
    pub fn prepare_inputs(pvk: &PreparedVerifyingKey, public_inputs: &Vec<Scalar>) -> (out: Result<
        G1,
        SynthesisError,
    >)
        ensures
            public_inputs@.len() + 1 != pvk.vk.gamma_abc_g1.0@.len() <==> out == Err::<
                G1,
                SynthesisError,
            >(SynthesisError::MalformedVerifyingKey),
            public_inputs@.len() + 1 == pvk.vk.gamma_abc_g1.0@.len() <==> out.is_ok(),
            out.is_ok() ==> out.unwrap()@ == g1_msm(
                views(pvk.vk.gamma_abc_g1.0@),
                with_leading_one(views(public_inputs@)),
            ),
    {
        let n = pvk.vk.gamma_abc_g1.0.len();
        if n == 0 || public_inputs.len() != n - 1 {
            return Err(SynthesisError::MalformedVerifyingKey);
        }
        let mut inputs: Vec<Scalar> = Vec::new();
        inputs.push(Scalar::one());
        let mut rest = scalar_copies(public_inputs);
        inputs.append(&mut rest);
        assert(views(inputs@) =~= with_leading_one(views(public_inputs@)));
        Ok(G1::msm(pvk.vk.gamma_abc_g1.0.as_slice(), inputs.as_slice()))
    }

    /// Verifies `proof` with its outside commitments against the prepared key
    /// and prepared public inputs. It never fails: a proof that does not hold
    /// gives `Ok(false)`, and so does one whose main pairing product has no
    /// value.
    pub fn verify_proof_with_prepared_inputs(
        pvk: &PreparedVerifyingKey,
        proof: &(Proof, Vec<G1>),
        prepared_inputs: &G1,
    ) -> (out: Result<bool, SynthesisError>)
        requires
            link_shape(*pvk, proof.1@.len()),
        ensures
            out == Ok::<bool, SynthesisError>(
                accepts(*pvk, proof.0, views(proof.1@), prepared_inputs@),
            ),
    {
        let link_d = &proof.1;
        let proof = &proof.0;
        let mut a: Vec<G1> = Vec::new();
        a.push(proof.a.duplicate());
        a.push(proof.d.plus(prepared_inputs));
        a.push(proof.c.duplicate());
        let mut b: Vec<G2> = Vec::new();
        b.push(proof.b.duplicate());
        b.push(pvk.gamma_g2_neg_pc.duplicate());
        b.push(pvk.delta_g2_neg_pc.duplicate());
        assert(views(a@) =~= seq![proof.a@, g1_sum(proof.d@, prepared_inputs@), proof.c@]);
        assert(views(b@) =~= seq![proof.b@, pvk.gamma_g2_neg_pc@, pvk.delta_g2_neg_pc@]);
        let test = match Gt::pairing_product(&a, &b) {
            Some(test) => test,
            None => { return Ok(false); },
        };
        if !test.same(&pvk.alpha_g1_beta_g2) {
            return Ok(false);
        }
        let mut x = crate::algebra::g1_copies(link_d);
        x.push(proof.d.duplicate());
        assert(views(x@) =~= views(link_d@).push(proof.d@));
        Ok(PESubspaceSnark::verify(&pvk.vk.link_pp, &pvk.vk.link_vk, &x, &proof.link_pi))
    }

    /// Verifies `proof` with its outside commitments against the prepared key
    /// and the public inputs. Fails with `MalformedVerifyingKey` exactly where
    /// the key has not one instance point more than there are inputs; a proof
    /// that does not hold gives `Ok(false)`.
    pub fn verify_proof(
        pvk: &PreparedVerifyingKey,
        proof: &(Proof, Vec<G1>),
        public_inputs: &Vec<Scalar>,
    ) -> (out: Result<bool, SynthesisError>)
        requires
            link_shape(*pvk, proof.1@.len()),
        ensures
            public_inputs@.len() + 1 != pvk.vk.gamma_abc_g1.0@.len() ==> out == Err::<
                bool,
                SynthesisError,
            >(SynthesisError::MalformedVerifyingKey),
            public_inputs@.len() + 1 == pvk.vk.gamma_abc_g1.0@.len() ==> out == Ok::<
                bool,
                SynthesisError,
            >(
                accepts(
                    *pvk,
                    proof.0,
                    views(proof.1@),
                    g1_msm(
                        views(pvk.vk.gamma_abc_g1.0@),
                        with_leading_one(views(public_inputs@)),
                    ),
                ),
            ),
    {
        match Self::prepare_inputs(pvk, public_inputs) {
            Ok(prepared_inputs) => Self::verify_proof_with_prepared_inputs(
                pvk,
                proof,
                &prepared_inputs,
            ),
            Err(e) => Err(e),
        }
    }
}

} // verus!

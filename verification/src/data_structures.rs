//! Proofs and keys.

use crate::algebra::{g1_copies, views, Gt, G1, G2};
use crate::link::snark::{PPView, VKView, EK, PP, VK};
use vstd::prelude::*;
use vstd::std_specs::convert::FromSpecImpl;

verus! {

/// A proof.
#[derive(Clone, Debug, PartialEq)]
pub struct Proof {
    /// The `A` element in the first group.
    pub a: G1,
    /// The `B` element in the second group.
    pub b: G2,
    /// The `C` element in the first group.
    pub c: G1,
    /// The `D` element in the first group. Commits to the witness values that
    /// are also committed outside the proof.
    pub d: G1,
    /// Proof that `d` and the outside commitments open to the same values.
    pub link_pi: G1,
}

/// What a proof holds.
pub struct ProofView {
    pub a: Seq<u8>,
    pub b: Seq<u8>,
    pub c: Seq<u8>,
    pub d: Seq<u8>,
    pub link_pi: Seq<u8>,
}

impl View for Proof {
    type V = ProofView;

    open spec fn view(&self) -> ProofView {
        ProofView { a: self.a@, b: self.b@, c: self.c@, d: self.d@, link_pi: self.link_pi@ }
    }
}

/// A query in two parts: the points for the instance variables, then those
/// for the committed ones.
#[derive(Clone, Debug, PartialEq)]
pub struct QueryPair(pub Vec<G1>, pub Vec<G1>);

/// A verification key.
#[derive(Clone, Debug, PartialEq)]
pub struct VerifyingKey {
    /// `alpha * G`, where `G` is the generator of the first group.
    pub alpha_g1: G1,
    /// `beta * H`, where `H` is the generator of the second group.
    pub beta_g2: G2,
    /// `gamma * H`.
    pub gamma_g2: G2,
    /// `delta * H`.
    pub delta_g2: G2,
    /// `gamma^{-1} * (beta * a_i + alpha * b_i + c_i) * G`: first for the
    /// instance variables, then for the committed ones.
    pub gamma_abc_g1: QueryPair,
    /// `eta * gamma^{-1} * G`.
    pub eta_gamma_inv_g1: G1,
    /// Public parameters of the link argument.
    pub link_pp: PP,
    /// Verification key of the link argument.
    pub link_vk: VK,
}

/// What a verification key holds.
pub struct VerifyingKeyView {
    pub alpha_g1: Seq<u8>,
    pub beta_g2: Seq<u8>,
    pub gamma_g2: Seq<u8>,
    pub delta_g2: Seq<u8>,
    pub gamma_abc_instance: Seq<Seq<u8>>,
    pub gamma_abc_committed: Seq<Seq<u8>>,
    pub eta_gamma_inv_g1: Seq<u8>,
    pub link_pp: PPView,
    pub link_vk: VKView,
}

impl View for VerifyingKey {
    type V = VerifyingKeyView;

    open spec fn view(&self) -> VerifyingKeyView {
        VerifyingKeyView {
            alpha_g1: self.alpha_g1@,
            beta_g2: self.beta_g2@,
            gamma_g2: self.gamma_g2@,
            delta_g2: self.delta_g2@,
            gamma_abc_instance: views(self.gamma_abc_g1.0@),
            gamma_abc_committed: views(self.gamma_abc_g1.1@),
            eta_gamma_inv_g1: self.eta_gamma_inv_g1@,
            link_pp: self.link_pp@,
            link_vk: self.link_vk@,
        }
    }
}

impl VerifyingKey {
    /// A copy of this key.
    pub fn duplicate(&self) -> (out: VerifyingKey)
        ensures
            out@ == self@,
    {
        VerifyingKey {
            alpha_g1: self.alpha_g1.duplicate(),
            beta_g2: self.beta_g2.duplicate(),
            gamma_g2: self.gamma_g2.duplicate(),
            delta_g2: self.delta_g2.duplicate(),
            gamma_abc_g1: QueryPair(
                g1_copies(&self.gamma_abc_g1.0),
                g1_copies(&self.gamma_abc_g1.1),
            ),
            eta_gamma_inv_g1: self.eta_gamma_inv_g1.duplicate(),
            link_pp: self.link_pp.duplicate(),
            link_vk: self.link_vk.duplicate(),
        }
    }
}

/// A verification key with what verification derives from it each time.
#[derive(Clone, Debug, PartialEq)]
pub struct PreparedVerifyingKey {
    /// The verification key itself.
    pub vk: VerifyingKey,
    /// The pairing of `alpha * G` with `beta * H`.
    pub alpha_g1_beta_g2: Gt,
    /// `- gamma * H`.
    pub gamma_g2_neg_pc: G2,
    /// `- delta * H`.
    pub delta_g2_neg_pc: G2,
}

impl From<PreparedVerifyingKey> for VerifyingKey {
    fn from(other: PreparedVerifyingKey) -> (out: Self) {
        other.vk
    }
}

impl FromSpecImpl<PreparedVerifyingKey> for VerifyingKey {
    open spec fn obeys_from_spec() -> bool {
        true
    }

    open spec fn from_spec(other: PreparedVerifyingKey) -> Self {
        other.vk
    }
}

/// The part of a proving key that only the prover needs.
#[derive(Clone, Debug, PartialEq)]
pub struct ProvingKeyCommon {
    /// `beta * G`.
    pub beta_g1: G1,
    /// `delta * G`.
    pub delta_g1: G1,
    /// `eta * delta^{-1} * G`.
    pub eta_delta_inv_g1: G1,
    /// The elements `a_i * G`.
    pub a_query: Vec<G1>,
    /// The elements `b_i * G`.
    pub b_g1_query: Vec<G1>,
    /// The elements `b_i * H`.
    pub b_g2_query: Vec<G2>,
    /// The elements `h_i * G`.
    pub h_query: Vec<G1>,
    /// The elements `l_i * G`.
    pub l_query: Vec<G1>,
    /// Evaluation key of the link argument.
    pub link_ek: EK,
}

/// What the prover's part of a proving key holds.
pub struct ProvingKeyCommonView {
    pub beta_g1: Seq<u8>,
    pub delta_g1: Seq<u8>,
    pub eta_delta_inv_g1: Seq<u8>,
    pub a_query: Seq<Seq<u8>>,
    pub b_g1_query: Seq<Seq<u8>>,
    pub b_g2_query: Seq<Seq<u8>>,
    pub h_query: Seq<Seq<u8>>,
    pub l_query: Seq<Seq<u8>>,
    pub link_ek: Seq<Seq<u8>>,
}

impl View for ProvingKeyCommon {
    type V = ProvingKeyCommonView;

    open spec fn view(&self) -> ProvingKeyCommonView {
        ProvingKeyCommonView {
            beta_g1: self.beta_g1@,
            delta_g1: self.delta_g1@,
            eta_delta_inv_g1: self.eta_delta_inv_g1@,
            a_query: views(self.a_query@),
            b_g1_query: views(self.b_g1_query@),
            b_g2_query: views(self.b_g2_query@),
            h_query: views(self.h_query@),
            l_query: views(self.l_query@),
            link_ek: self.link_ek@,
        }
    }
}

/// The prover's key.
#[derive(Clone, Debug, PartialEq)]
pub struct ProvingKey {
    /// The verification key that goes with it.
    pub vk: VerifyingKey,
    pub common: ProvingKeyCommon,
}

/// What a proving key holds.
pub struct ProvingKeyView {
    pub vk: VerifyingKeyView,
    pub common: ProvingKeyCommonView,
}

impl View for ProvingKey {
    type V = ProvingKeyView;

    open spec fn view(&self) -> ProvingKeyView {
        ProvingKeyView { vk: self.vk@, common: self.common@ }
    }
}

} // verus!

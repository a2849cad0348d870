//! The trusted setup: from the program of a circuit and the trapdoor scalars to
//! a proving key with its verification key.

use crate::algebra::{
    fr_inverse, fr_product, fr_sum, g1_copies, g1_scaled, g2_scaled, scalar_zero, views, Scalar,
    G1, G2,
};
use crate::data_structures::{
    ProvingKey, ProvingKeyCommon, ProvingKeyCommonView, ProvingKeyView, QueryPair, VerifyingKey,
    VerifyingKeyView,
};
use crate::error::SynthesisError;
use crate::formats::{enc_pk, enc_vk};
use crate::link::snark::{
    link_ek, link_vk, matrix_fits, PESubspaceSnark, PPView, Row, RowView, PP,
};
use crate::prover::can_prove;
use crate::r1cs_to_qap::{QapInstance, R1CSToQAP};
use crate::Groth16;
use vstd::prelude::*;

verus! {

/// The bases of one outside commitment with its blinding base, as encodings.
pub type GensView = (Seq<Seq<u8>>, Seq<u8>);

/// The scalars and generators that a setup is made from.
pub struct SetupView {
    pub alpha: Seq<u8>,
    pub beta: Seq<u8>,
    pub gamma: Seq<u8>,
    pub delta: Seq<u8>,
    pub eta: Seq<u8>,
    pub g1_generator: Seq<u8>,
    pub g2_generator: Seq<u8>,
    /// The scalars of the quotient query.
    pub h_scalars: Seq<Seq<u8>>,
    /// The generators of the link argument.
    pub link_g1: Seq<u8>,
    pub link_g2: Seq<u8>,
    /// The trapdoor of the link argument, one scalar per row of its matrix.
    pub link_trapdoor: Seq<Seq<u8>>,
    /// The blinding scalar of the link argument.
    pub link_a: Seq<u8>,
}

/// The outside commitments' bases as encodings.
pub open spec fn gens_view(gens: Seq<(Vec<G1>, G1)>) -> Seq<GensView> {
    Seq::new(gens.len(), |i: int| (views(gens[i].0@), gens[i].1@))
}

/// `(beta a + alpha b + c) * inverse`.
pub open spec fn combined(
    alpha: Seq<u8>,
    beta: Seq<u8>,
    a: Seq<u8>,
    b: Seq<u8>,
    c: Seq<u8>,
    inverse: Seq<u8>,
) -> Seq<u8> {
    fr_product(fr_sum(fr_sum(fr_product(beta, a), fr_product(alpha, b)), c), inverse)
}

/// The number of wires for which the program has all three values.
pub open spec fn wires(qap: QapInstance) -> nat {
    let ab = if qap.a@.len() <= qap.b@.len() { qap.a@.len() } else { qap.b@.len() };
    if ab <= qap.c@.len() { ab } else { qap.c@.len() }
}

/// The number of wires that the verifier's key covers.
pub open spec fn shown(qap: QapInstance) -> nat {
    (qap.num_instance_variables + qap.num_committed_variables) as nat
}

/// The combined scalars of the wires from `from` up to `to`.
pub open spec fn combined_range(
    qap: QapInstance,
    alpha: Seq<u8>,
    beta: Seq<u8>,
    inverse: Seq<u8>,
    from: nat,
    to: nat,
) -> Seq<Seq<u8>> {
    Seq::new(
        (to - from) as nat,
        |i: int| combined(alpha, beta, qap.a@[from + i]@, qap.b@[from + i]@, qap.c@[from + i]@, inverse),
    )
}

/// The point `g` of the first group multiplied by each scalar.
pub open spec fn g1_multiples(g: Seq<u8>, scalars: Seq<Seq<u8>>) -> Seq<Seq<u8>> {
    Seq::new(scalars.len(), |i: int| g1_scaled(g, scalars[i]))
}

/// The point `g` of the second group multiplied by each scalar.
pub open spec fn g2_multiples(g: Seq<u8>, scalars: Seq<Seq<u8>>) -> Seq<Seq<u8>> {
    Seq::new(scalars.len(), |i: int| g2_scaled(g, scalars[i]))
}

/// The number of bases of the first `i` outside commitments.
pub open spec fn offset(gens: Seq<GensView>, i: nat) -> nat
    decreases i,
{
    if i == 0 {
        0
    } else {
        offset(gens, (i - 1) as nat) + gens[i - 1].0.len()
    }
}

/// The matrix of the link argument: one row per outside commitment, whose
/// bases stand in the columns of the values it commits to and whose blinding
/// base has a column of its own; and a last row for the commitment inside the
/// proof.
pub open spec fn link_matrix(
    gens: Seq<GensView>,
    num_committed: nat,
    gamma_abc_committed: Seq<Seq<u8>>,
    eta_gamma_inv_g1: Seq<u8>,
) -> Seq<RowView> {
    Seq::new(
        gens.len() + 1,
        |u: int|
            if u < gens.len() {
                RowView {
                    start: offset(gens, u as nat),
                    bases: gens[u].0,
                    blind_column: (num_committed + u) as nat,
                    blind_base: gens[u].1,
                }
            } else {
                RowView {
                    start: 0,
                    bases: gamma_abc_committed,
                    blind_column: num_committed + gens.len(),
                    blind_base: eta_gamma_inv_g1,
                }
            },
    )
}

/// The verification key of a setup whose `gamma` has the inverse
/// `gamma_inverse`.
pub open spec fn verifying_key_of(
    qap: QapInstance,
    gens: Seq<GensView>,
    su: SetupView,
    gamma_inverse: Seq<u8>,
) -> VerifyingKeyView {
    let instance = qap.num_instance_variables as nat;
    let committed = qap.num_committed_variables as nat;
    let gamma_abc_committed = g1_multiples(
        su.g1_generator,
        combined_range(qap, su.alpha, su.beta, gamma_inverse, instance, shown(qap)),
    );
    let eta_gamma_inv_g1 = g1_scaled(su.g1_generator, fr_product(su.eta, gamma_inverse));
    VerifyingKeyView {
        alpha_g1: g1_scaled(su.g1_generator, su.alpha),
        beta_g2: g2_scaled(su.g2_generator, su.beta),
        gamma_g2: g2_scaled(su.g2_generator, su.gamma),
        delta_g2: g2_scaled(su.g2_generator, su.delta),
        gamma_abc_instance: g1_multiples(
            su.g1_generator,
            combined_range(qap, su.alpha, su.beta, gamma_inverse, 0, instance),
        ),
        gamma_abc_committed,
        eta_gamma_inv_g1,
        link_pp: PPView {
            l: 1 + gens.len(),
            t: committed + 1 + gens.len(),
            g1: su.link_g1,
            g2: su.link_g2,
        },
        link_vk: link_vk(su.link_g2, su.link_trapdoor, su.link_a),
    }
}

/// The prover's part of the key of a setup whose `gamma` and `delta` have the
/// inverses `gamma_inverse` and `delta_inverse`.
pub open spec fn common_of(
    qap: QapInstance,
    gens: Seq<GensView>,
    su: SetupView,
    gamma_inverse: Seq<u8>,
    delta_inverse: Seq<u8>,
) -> ProvingKeyCommonView {
    let vk = verifying_key_of(qap, gens, su, gamma_inverse);
    ProvingKeyCommonView {
        beta_g1: g1_scaled(su.g1_generator, su.beta),
        delta_g1: g1_scaled(su.g1_generator, su.delta),
        eta_delta_inv_g1: g1_scaled(su.g1_generator, fr_product(su.eta, delta_inverse)),
        a_query: g1_multiples(su.g1_generator, views(qap.a@)),
        b_g1_query: g1_multiples(su.g1_generator, views(qap.b@)),
        b_g2_query: g2_multiples(su.g2_generator, views(qap.b@)),
        h_query: g1_multiples(su.g1_generator, su.h_scalars),
        l_query: g1_multiples(
            su.g1_generator,
            combined_range(qap, su.alpha, su.beta, delta_inverse, shown(qap), wires(qap)),
        ),
        link_ek: link_ek(
            vk.link_pp.t,
            link_matrix(
                gens,
                qap.num_committed_variables as nat,
                vk.gamma_abc_committed,
                vk.eta_gamma_inv_g1,
            ),
            su.link_trapdoor,
        ),
    }
}

/// The proving key of a setup, where `gamma` and `delta` have inverses.
pub open spec fn key_of(qap: QapInstance, gens: Seq<GensView>, su: SetupView) -> ProvingKeyView {
    let gamma_inverse = fr_inverse(su.gamma).unwrap();
    let delta_inverse = fr_inverse(su.delta).unwrap();
    ProvingKeyView {
        vk: verifying_key_of(qap, gens, su, gamma_inverse),
        common: common_of(qap, gens, su, gamma_inverse, delta_inverse),
    }
}

/// What the reduction `QAP` gives when setup asks it for the scalars of the
/// quotient query: setup asks for the powers below the size of the domain
/// less one, at the program's point and vanishing-polynomial value, with the
/// inverse of `delta`.
pub open spec fn quotient_scalars<QAP: R1CSToQAP>(qap: QapInstance, delta: Seq<u8>) -> Result<
    Seq<Seq<u8>>,
    SynthesisError,
> {
    QAP::h_scalars((qap.m_raw - 1) as usize, qap.t@, qap.zt@, fr_inverse(delta).unwrap())
}

/// Whether `out` is what setup with the reduction `QAP` gives for the scalars
/// and generators `su`: `UnexpectedIdentity` where `gamma` or `delta` is zero;
/// else the reduction's error where it has one; else the key of `su`, whose
/// quotient scalars are the reduction's.
pub open spec fn is_setup_result<QAP: R1CSToQAP>(
    out: Result<ProvingKey, SynthesisError>,
    qap: QapInstance,
    gens: Seq<GensView>,
    su: SetupView,
) -> bool {
    if su.gamma == scalar_zero() || su.delta == scalar_zero() {
        out == Err::<ProvingKey, SynthesisError>(SynthesisError::UnexpectedIdentity)
    } else {
        match quotient_scalars::<QAP>(qap, su.delta) {
            Ok(h) => out.is_ok() && su.h_scalars == h && out.unwrap()@ == key_of(qap, gens, su),
            Err(e) => out == Err::<ProvingKey, SynthesisError>(e),
        }
    }
}

/// Whether the program and the outside commitments have the shape that a
/// setup reads: all three values for every wire that the verifier's key
/// covers, a domain that is not empty, and outside commitments that commit to
/// the committed wires, each to its own, in order.
pub open spec fn can_set_up(qap: QapInstance, gens: Seq<GensView>) -> bool {
    &&& shown(qap) <= wires(qap)
    &&& qap.m_raw >= 1
    &&& offset(gens, gens.len()) == qap.num_committed_variables
    &&& qap.num_committed_variables + 1 + gens.len() <= usize::MAX
}

/// Two setups from the same program, the same bases, the same scalars and the
/// same generators give keys with the same encodings, byte for byte.
pub proof fn lemma_setup_is_deterministic(
    qap: QapInstance,
    gens: Seq<GensView>,
    su: SetupView,
    first: ProvingKeyView,
    second: ProvingKeyView,
)
    requires
        first == key_of(qap, gens, su),
        second == key_of(qap, gens, su),
    ensures
        enc_pk(first) == enc_pk(second),
        enc_vk(first.vk) == enc_vk(second.vk),
{
}

/// A key that a setup made has the shape that the prover and the verifier ask
/// for: one point of the verifier's key for each instance wire and for each
/// committed wire, a first point in each query where the program has a
/// wire, and link parameters with a row for each outside commitment and for
/// the commitment inside the proof, and a column for each committed value and
/// each row.
pub proof fn lemma_setup_key_fits(
    pk: ProvingKey,
    qap: QapInstance,
    gens: Seq<GensView>,
    su: SetupView,
    r: Seq<u8>,
)
    requires
        can_set_up(qap, gens),
        su.link_trapdoor.len() == gens.len() + 1,
        pk@ == key_of(qap, gens, su),
        qap.a@.len() >= 1,
        qap.b@.len() >= 1,
    ensures
        pk.vk.gamma_abc_g1.0@.len() == qap.num_instance_variables,
        pk.vk.gamma_abc_g1.1@.len() == qap.num_committed_variables,
        pk.vk.link_pp.l == gens.len() + 1,
        pk.vk.link_pp.t == qap.num_committed_variables + pk.vk.link_pp.l,
        pk.vk.link_vk.c@.len() == pk.vk.link_pp.l,
        pk.common.link_ek.p@.len() == pk.vk.link_pp.t,
        can_prove(pk, r, qap.num_committed_variables as nat, gens.len()),
{
    assert(pk@.vk.gamma_abc_instance.len() == qap.num_instance_variables);
    assert(pk@.vk.gamma_abc_committed.len() == qap.num_committed_variables);
    assert(pk@.vk.link_pp.l == gens.len() + 1);
    assert(pk@.vk.link_vk.c.len() == gens.len() + 1);
    assert(pk@.common.a_query.len() == qap.a@.len());
    assert(pk@.common.b_g1_query.len() == qap.b@.len());
    assert(pk@.common.b_g2_query.len() == qap.b@.len());
    assert(pk@.common.link_ek.len() == pk@.vk.link_pp.t);
    assert(pk.common.link_ek@.len() == pk.common.link_ek.p@.len());
}

/// The layout of the link matrix: the outside commitments take their columns
/// one after the other among the columns of the committed values, so no two of
/// them share a column; every row has a blinding column that is its own; and
/// the last row spans the columns of all committed values. So a column of a
/// committed value has two entries, one in the row of its outside commitment
/// and one in the last row, and both stand for that one value.
pub proof fn lemma_link_matrix_layout(
    gens: Seq<GensView>,
    num_committed: nat,
    gamma_abc_committed: Seq<Seq<u8>>,
    eta_gamma_inv_g1: Seq<u8>,
    u: int,
    w: int,
)
    requires
        offset(gens, gens.len()) == num_committed,
        gamma_abc_committed.len() == num_committed,
        0 <= u < w < gens.len(),
    ensures
        ({
            let m = link_matrix(gens, num_committed, gamma_abc_committed, eta_gamma_inv_g1);
            let last = m[gens.len() as int];
            &&& m.len() == gens.len() + 1
            &&& m[u].start + m[u].bases.len() <= m[w].start
            &&& m[w].start + m[w].bases.len() <= num_committed
            &&& num_committed <= m[u].blind_column < m[w].blind_column < last.blind_column
            &&& last.start == 0
            &&& last.bases.len() == num_committed
            &&& last.blind_column == num_committed + gens.len()
        }),
{
    lemma_offset_monotone(gens, (u + 1) as nat, w as nat);
    lemma_offset_monotone(gens, (w + 1) as nat, gens.len());
}

/// The bases counted up to `i` are among those counted up to `j`.
pub proof fn lemma_offset_monotone(gens: Seq<GensView>, i: nat, j: nat)
    requires
        i <= j,
    ensures
        offset(gens, i) <= offset(gens, j),
    decreases j,
{
    if i < j {
        lemma_offset_monotone(gens, i, (j - 1) as nat);
    }
}

impl<QAP: R1CSToQAP> Groth16<QAP> {
    /// A proving key for the program `qap` and the outside commitments' bases,
    /// with every scalar and generator of the setup drawn from `rng`: what
    /// `generate_parameters_with_qap` gives for the drawn values.
    pub fn generate_random_parameters_with_reduction(
        qap: &QapInstance,
        pedersen_gens: &Vec<(Vec<G1>, G1)>,
        rng: &mut ark_std::rand::rngs::StdRng,
    ) -> (out: Result<ProvingKey, SynthesisError>)
        requires
            can_set_up(*qap, gens_view(pedersen_gens@)),
        ensures
            exists|su: SetupView|
                {
                    &&& su.link_trapdoor.len() == pedersen_gens@.len() + 1
                    &&& #[trigger] is_setup_result::<QAP>(out, *qap, gens_view(pedersen_gens@), su)
                },
    {
        let alpha = Scalar::random(rng);
        let beta = Scalar::random(rng);
        let gamma = Scalar::random(rng);
        let delta = Scalar::random(rng);
        let eta = Scalar::random(rng);

        let g1_generator = G1::random(rng);
        let g2_generator = G2::random(rng);

        Self::generate_parameters_with_qap(
            qap,
            pedersen_gens,
            &alpha,
            &beta,
            &gamma,
            &delta,
            &eta,
            &g1_generator,
            &g2_generator,
            rng,
        )
    }

    /// A proving key for the program `qap` and the outside commitments' bases,
    /// given the trapdoor scalars and the group generators. The scalars of the
    /// quotient query come from the reduction; the generators and the trapdoor
    /// of the link argument are drawn from `rng`. Fails with
    /// `UnexpectedIdentity` where `gamma` or `delta` is zero, and else exactly
    /// where the reduction does, with the reduction's error.
    pub fn generate_parameters_with_qap(
        qap: &QapInstance,
        pedersen_gens: &Vec<(Vec<G1>, G1)>,
        alpha: &Scalar,
        beta: &Scalar,
        gamma: &Scalar,
        delta: &Scalar,
        eta: &Scalar,
        g1_generator: &G1,
        g2_generator: &G2,
        rng: &mut ark_std::rand::rngs::StdRng,
    ) -> (out: Result<ProvingKey, SynthesisError>)
        requires
            can_set_up(*qap, gens_view(pedersen_gens@)),
        ensures
            (gamma@ == scalar_zero() || delta@ == scalar_zero()) ==> out == Err::<
                ProvingKey,
                SynthesisError,
            >(SynthesisError::UnexpectedIdentity),
            (gamma@ != scalar_zero() && delta@ != scalar_zero()) ==> (out.is_ok()
                <==> quotient_scalars::<QAP>(*qap, delta@).is_ok()),
            (gamma@ != scalar_zero() && delta@ != scalar_zero() && out.is_err())
                ==> quotient_scalars::<QAP>(*qap, delta@) == Err::<Seq<Seq<u8>>, SynthesisError>(
                out.unwrap_err(),
            ),
            exists|su: SetupView|
                {
                    &&& su.alpha == alpha@
                    &&& su.beta == beta@
                    &&& su.gamma == gamma@
                    &&& su.delta == delta@
                    &&& su.eta == eta@
                    &&& su.g1_generator == g1_generator@
                    &&& su.g2_generator == g2_generator@
                    &&& su.link_trapdoor.len() == pedersen_gens@.len() + 1
                    &&& #[trigger] is_setup_result::<QAP>(out, *qap, gens_view(pedersen_gens@), su)
                },
    {
        let ghost gens = gens_view(pedersen_gens@);
        // Where setup fails before it draws anything for the link argument, any
        // values stand for what it would have drawn.
        let ghost undrawn = SetupView {
            alpha: alpha@,
            beta: beta@,
            gamma: gamma@,
            delta: delta@,
            eta: eta@,
            g1_generator: g1_generator@,
            g2_generator: g2_generator@,
            h_scalars: Seq::empty(),
            link_g1: Seq::empty(),
            link_g2: Seq::empty(),
            link_trapdoor: Seq::new(pedersen_gens@.len() + 1, |i: int| Seq::empty()),
            link_a: Seq::empty(),
        };
        if gamma.inverse().is_none() {
            let out = Err(SynthesisError::UnexpectedIdentity);
            assert(is_setup_result::<QAP>(out, *qap, gens, undrawn));
            return out;
        }
        let delta_inverse = match delta.inverse() {
            Some(inverse) => inverse,
            None => {
                let out = Err(SynthesisError::UnexpectedIdentity);
                assert(is_setup_result::<QAP>(out, *qap, gens, undrawn));
                return out;
            },
        };
        let h_scalars = match QAP::h_query_scalars(qap.m_raw - 1, &qap.t, &qap.zt, &delta_inverse) {
            Ok(h_scalars) => h_scalars,
            Err(e) => {
                let out = Err(e);
                assert(is_setup_result::<QAP>(out, *qap, gens, undrawn));
                return out;
            },
        };

        let link_g1 = G1::random(rng);
        let link_g2 = G2::random(rng);
        let mut link_trapdoor: Vec<Scalar> = Vec::new();
        let mut i: usize = 0;
        while i < 1 + pedersen_gens.len()
            invariant
                pedersen_gens@.len() < usize::MAX,
                i <= 1 + pedersen_gens@.len(),
                link_trapdoor@.len() == i,
            decreases 1 + pedersen_gens@.len() - i,
        {
            link_trapdoor.push(Scalar::random(rng));
            i += 1;
        }
        let link_a = Scalar::random(rng);
        let ghost su = SetupView {
            alpha: alpha@,
            beta: beta@,
            gamma: gamma@,
            delta: delta@,
            eta: eta@,
            g1_generator: g1_generator@,
            g2_generator: g2_generator@,
            h_scalars: views(h_scalars@),
            link_g1: link_g1@,
            link_g2: link_g2@,
            link_trapdoor: views(link_trapdoor@),
            link_a: link_a@,
        };
        let out = Self::assemble_parameters(
            qap,
            pedersen_gens,
            alpha,
            beta,
            gamma,
            delta,
            eta,
            g1_generator,
            g2_generator,
            &h_scalars,
            link_g1,
            link_g2,
            &link_trapdoor,
            &link_a,
        );
        assert(is_setup_result::<QAP>(out, *qap, gens, su));
        out
    }

    /// The combined scalars of the wires from `from` up to `to`.
    fn combine(
        qap: &QapInstance,
        alpha: &Scalar,
        beta: &Scalar,
        inverse: &Scalar,
        from: usize,
        to: usize,
    ) -> (out: Vec<Scalar>)
        requires
            from <= to <= wires(*qap),
        ensures
            views(out@) == combined_range(*qap, alpha@, beta@, inverse@, from as nat, to as nat),
    {
        let mut out: Vec<Scalar> = Vec::new();
        let mut i: usize = from;
        while i < to
            invariant
                from <= i <= to <= wires(*qap),
                out@.len() == i - from,
                forall|j: int|
                    0 <= j < i - from ==> (#[trigger] out@[j])@ == combined(
                        alpha@,
                        beta@,
                        qap.a@[from + j]@,
                        qap.b@[from + j]@,
                        qap.c@[from + j]@,
                        inverse@,
                    ),
            decreases to - i,
        {
            let ba = beta.times(&qap.a[i]);
            let ab = alpha.times(&qap.b[i]);
            out.push(ba.plus(&ab).plus(&qap.c[i]).times(inverse));
            i += 1;
        }
        assert(views(out@) =~= combined_range(
            *qap,
            alpha@,
            beta@,
            inverse@,
            from as nat,
            to as nat,
        ));
        out
    }

    /// The smallest of the three lengths of the program's values.
    fn wire_count(qap: &QapInstance) -> (n: usize)
        ensures
            n == wires(*qap),
    {
        let ab = if qap.a.len() <= qap.b.len() { qap.a.len() } else { qap.b.len() };
        if ab <= qap.c.len() { ab } else { qap.c.len() }
    }

    /// The matrix of the link argument.
    fn build_link_matrix(
        pedersen_gens: &Vec<(Vec<G1>, G1)>,
        num_committed: usize,
        gamma_abc_committed: &Vec<G1>,
        eta_gamma_inv_g1: &G1,
    ) -> (m: Vec<Row>)
        requires
            offset(gens_view(pedersen_gens@), pedersen_gens@.len()) == num_committed,
            num_committed + 1 + pedersen_gens@.len() <= usize::MAX,
        ensures
            views(m@) == link_matrix(
                gens_view(pedersen_gens@),
                num_committed as nat,
                views(gamma_abc_committed@),
                eta_gamma_inv_g1@,
            ),
    {
        let ghost gens = gens_view(pedersen_gens@);
        let mut link_m: Vec<Row> = Vec::new();
        let mut c: usize = 0;
        let mut i: usize = 0;
        while i < pedersen_gens.len()
            invariant
                gens == gens_view(pedersen_gens@),
                i <= pedersen_gens@.len(),
                offset(gens, pedersen_gens@.len()) == num_committed,
                num_committed + 1 + pedersen_gens@.len() <= usize::MAX,
                c == offset(gens, i as nat),
                link_m@.len() == i,
                forall|u: int|
                    0 <= u < i ==> (#[trigger] link_m@[u])@ == (RowView {
                        start: offset(gens, u as nat),
                        bases: gens[u].0,
                        blind_column: (num_committed + u) as nat,
                        blind_base: gens[u].1,
                    }),
            decreases pedersen_gens@.len() - i,
        {
            proof {
                lemma_offset_monotone(gens, (i + 1) as nat, pedersen_gens@.len());
            }
            let g = &pedersen_gens[i];
            link_m.push(
                Row {
                    start: c,
                    bases: g1_copies(&g.0),
                    blind_column: num_committed + i,
                    blind_base: g.1.duplicate(),
                },
            );
            c += g.0.len();
            i += 1;
        }
        link_m.push(
            Row {
                start: 0,
                bases: g1_copies(gamma_abc_committed),
                blind_column: num_committed + pedersen_gens.len(),
                blind_base: eta_gamma_inv_g1.duplicate(),
            },
        );
        assert(views(link_m@) =~= link_matrix(
            gens,
            num_committed as nat,
            views(gamma_abc_committed@),
            eta_gamma_inv_g1@,
        ));
        link_m
    }

    /// The proving key for the program `qap`, the outside commitments' bases
    /// and the given scalars and generators. Fails with `UnexpectedIdentity`
    /// exactly where `gamma` or `delta` is zero. Whoever keeps the scalars can
    /// forge proofs.
    pub fn assemble_parameters(
        qap: &QapInstance,
        pedersen_gens: &Vec<(Vec<G1>, G1)>,
        alpha: &Scalar,
        beta: &Scalar,
        gamma: &Scalar,
        delta: &Scalar,
        eta: &Scalar,
        g1_generator: &G1,
        g2_generator: &G2,
        h_scalars: &Vec<Scalar>,
        link_g1: G1,
        link_g2: G2,
        link_trapdoor: &Vec<Scalar>,
        link_a: &Scalar,
    ) -> (out: Result<ProvingKey, SynthesisError>)
        requires
            can_set_up(*qap, gens_view(pedersen_gens@)),
            link_trapdoor@.len() == pedersen_gens@.len() + 1,
        ensures
            (gamma@ == scalar_zero() || delta@ == scalar_zero()) <==> out == Err::<
                ProvingKey,
                SynthesisError,
            >(SynthesisError::UnexpectedIdentity),
            (gamma@ != scalar_zero() && delta@ != scalar_zero()) <==> out.is_ok(),
            out.is_ok() ==> out.unwrap()@ == key_of(
                *qap,
                gens_view(pedersen_gens@),
                SetupView {
                    alpha: alpha@,
                    beta: beta@,
                    gamma: gamma@,
                    delta: delta@,
                    eta: eta@,
                    g1_generator: g1_generator@,
                    g2_generator: g2_generator@,
                    h_scalars: views(h_scalars@),
                    link_g1: link_g1@,
                    link_g2: link_g2@,
                    link_trapdoor: views(link_trapdoor@),
                    link_a: link_a@,
                },
            ),
    {
        let ghost gens = gens_view(pedersen_gens@);
        let ghost su = SetupView {
            alpha: alpha@,
            beta: beta@,
            gamma: gamma@,
            delta: delta@,
            eta: eta@,
            g1_generator: g1_generator@,
            g2_generator: g2_generator@,
            h_scalars: views(h_scalars@),
            link_g1: link_g1@,
            link_g2: link_g2@,
            link_trapdoor: views(link_trapdoor@),
            link_a: link_a@,
        };
        let num_instance_variables = qap.num_instance_variables;
        let num_committed_variables = qap.num_committed_variables;
        let wire_count = Self::wire_count(qap);
        let shown_wires = num_instance_variables + num_committed_variables;

        let gamma_inverse = match gamma.inverse() {
            Some(inverse) => inverse,
            None => { return Err(SynthesisError::UnexpectedIdentity); },
        };
        let delta_inverse = match delta.inverse() {
            Some(inverse) => inverse,
            None => { return Err(SynthesisError::UnexpectedIdentity); },
        };

        let gamma_abc = Self::combine(qap, alpha, beta, &gamma_inverse, 0, shown_wires);
        let l = Self::combine(
            qap,
            alpha,
            beta,
            &delta_inverse,
            shown_wires,
            wire_count,
        );

        // Generate the proving key
        let b_g2_query = g2_generator.batch_scale(&qap.b);
        let alpha_g1 = g1_generator.scale(alpha);
        let beta_g1 = g1_generator.scale(beta);
        let beta_g2 = g2_generator.scale(beta);
        let delta_g1 = g1_generator.scale(delta);
        let delta_g2 = g2_generator.scale(delta);
        let a_query = g1_generator.batch_scale(&qap.a);
        let b_g1_query = g1_generator.batch_scale(&qap.b);
        let h_query = g1_generator.batch_scale(h_scalars);
        let l_query = g1_generator.batch_scale(&l);

        // Generate the verification key
        let gamma_g2 = g2_generator.scale(gamma);
        let mut gamma_abc_g1 = g1_generator.batch_scale(&gamma_abc);
        let ghost whole = views(gamma_abc_g1@);
        assert(whole =~= g1_multiples(
            su.g1_generator,
            combined_range(*qap, su.alpha, su.beta, gamma_inverse@, 0, shown(*qap)),
        ));
        let gamma_abc_g1_part_2 = gamma_abc_g1.split_off(num_instance_variables);
        assert(views(gamma_abc_g1@) =~= whole.subrange(0, num_instance_variables as int));
        assert(views(gamma_abc_g1_part_2@) =~= whole.subrange(
            num_instance_variables as int,
            shown_wires as int,
        ));

        let eta_gamma_inv_g1 = g1_generator.scale(&eta.times(&gamma_inverse));
        let eta_delta_inv_g1 = g1_generator.scale(&eta.times(&delta_inverse));

        // Set up the link argument: one row for each outside commitment and one
        // for the commitment inside the proof; one column for each committed
        // value and one hiding factor per row.
        let link_rows = 1 + pedersen_gens.len();
        let link_cols = num_committed_variables + link_rows;
        let link_pp = PP { l: link_rows, t: link_cols, g1: link_g1, g2: link_g2 };
        let link_m = Self::build_link_matrix(
            pedersen_gens,
            num_committed_variables,
            &gamma_abc_g1_part_2,
            &eta_gamma_inv_g1,
        );
        proof {
            let m = views(link_m@);
            assert(link_m@.len() == m.len());
            assert(views(gamma_abc_g1_part_2@).len() == num_committed_variables);
            assert forall|u: int| 0 <= u < m.len() implies (#[trigger] m[u]).start
                + m[u].bases.len() <= link_cols && m[u].blind_column < link_cols by {
                if u < gens.len() {
                    lemma_offset_monotone(gens, (u + 1) as nat, gens.len());
                }
            }
        }
        let (link_ek, link_vk) = PESubspaceSnark::keygen_with_trapdoor(
            &link_pp,
            &link_m,
            link_trapdoor,
            link_a,
        );

        let vk = VerifyingKey {
            alpha_g1,
            beta_g2,
            gamma_g2,
            delta_g2,
            gamma_abc_g1: QueryPair(gamma_abc_g1, gamma_abc_g1_part_2),
            eta_gamma_inv_g1,
            link_pp,
            link_vk,
        };
        let common = ProvingKeyCommon {
            beta_g1,
            delta_g1,
            eta_delta_inv_g1,
            a_query,
            b_g1_query,
            b_g2_query,
            h_query,
            l_query,
            link_ek,
        };
        proof {
            let want = key_of(*qap, gens, su);
            assert(vk@.gamma_abc_instance =~= want.vk.gamma_abc_instance);
            assert(vk@.gamma_abc_committed =~= want.vk.gamma_abc_committed);
            assert(vk@.link_pp == want.vk.link_pp);
            assert(vk@ == want.vk);
            assert(common@.a_query =~= want.common.a_query);
            assert(common@.b_g1_query =~= want.common.b_g1_query);
            assert(common@.b_g2_query =~= want.common.b_g2_query);
            assert(common@.h_query =~= want.common.h_query);
            assert(common@.l_query =~= want.common.l_query);
            assert(common@ == want.common);
        }
        Ok(ProvingKey { vk, common })
    }
}

} // verus!

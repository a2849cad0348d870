//! The persisted form of proofs and keys, and the proof that what is written
//! is read back.

use crate::algebra::{views, G1, G2};
use crate::data_structures::{
    Proof, ProofView, ProvingKey, ProvingKeyCommon, ProvingKeyCommonView, ProvingKeyView,
    QueryPair, VerifyingKey, VerifyingKeyView,
};
use crate::encoding::{
    enc_count, enc_items, enc_seq, lemma_field_at, lemma_parse_count, lemma_parse_g1s,
    lemma_parse_g2s, lemma_start_next, parse_count, parse_g1, parse_g1s, parse_g2, parse_g2s,
    piece, put_count, put_g1, put_g1s, put_g2, put_g2s, start, take_count, take_g1, take_g1s,
    take_g2, take_g2s, valid_g1s, valid_g2s,
};
use crate::link::snark::{PPView, VKView, EK, PP, VK};
use vstd::prelude::*;

verus! {

/// The place after what was read, or the front where nothing was.
pub open spec fn end_of<T>(p: Option<(T, int)>) -> int {
    match p {
        Some((_, end)) => end,
        None => 0,
    }
}

/// What `p` read, where it read something.
pub open spec fn got<T>(p: Option<(T, int)>) -> T
    recommends
        p.is_some(),
{
    p.unwrap().0
}

/// Fields side by side with one more are those fields and then the new one.
proof fn lemma_push_field(fields: Seq<Seq<u8>>, f: Seq<u8>)
    ensures
        enc_items(fields.push(f)) == enc_items(fields) + f,
{
    assert(fields.push(f).drop_last() =~= fields);
}

fn field_g1(out: &mut Vec<u8>, p: &G1, Ghost(before): Ghost<Seq<u8>>, Ghost(fields): Ghost<
    Seq<Seq<u8>>,
>) -> (next: Ghost<Seq<Seq<u8>>>)
    requires
        old(out)@ == before + enc_items(fields),
    ensures
        final(out)@ == before + enc_items(next@),
        next@ == fields.push(p@),
        G1::is_encoding(p@),
{
    put_g1(out, p);
    proof {
        lemma_push_field(fields, p@);
        assert(out@ =~= before + enc_items(fields.push(p@)));
    }
    Ghost(fields.push(p@))
}

fn field_g2(out: &mut Vec<u8>, p: &G2, Ghost(before): Ghost<Seq<u8>>, Ghost(fields): Ghost<
    Seq<Seq<u8>>,
>) -> (next: Ghost<Seq<Seq<u8>>>)
    requires
        old(out)@ == before + enc_items(fields),
    ensures
        final(out)@ == before + enc_items(next@),
        next@ == fields.push(p@),
        G2::is_encoding(p@),
{
    put_g2(out, p);
    proof {
        lemma_push_field(fields, p@);
        assert(out@ =~= before + enc_items(fields.push(p@)));
    }
    Ghost(fields.push(p@))
}

fn field_count(out: &mut Vec<u8>, n: usize, Ghost(before): Ghost<Seq<u8>>, Ghost(fields): Ghost<
    Seq<Seq<u8>>,
>) -> (next: Ghost<Seq<Seq<u8>>>)
    requires
        old(out)@ == before + enc_items(fields),
    ensures
        final(out)@ == before + enc_items(next@),
        next@ == fields.push(enc_count(n as nat)),
{
    put_count(out, n);
    proof {
        lemma_push_field(fields, enc_count(n as nat));
        assert(out@ =~= before + enc_items(fields.push(enc_count(n as nat))));
    }
    Ghost(fields.push(enc_count(n as nat)))
}

fn field_g1s(out: &mut Vec<u8>, v: &Vec<G1>, Ghost(before): Ghost<Seq<u8>>, Ghost(fields): Ghost<
    Seq<Seq<u8>>,
>) -> (next: Ghost<Seq<Seq<u8>>>)
    requires
        old(out)@ == before + enc_items(fields),
    ensures
        final(out)@ == before + enc_items(next@),
        next@ == fields.push(enc_seq(views(v@))),
        valid_g1s(views(v@)),
{
    put_g1s(out, v);
    proof {
        lemma_push_field(fields, enc_seq(views(v@)));
        assert(out@ =~= before + enc_items(fields.push(enc_seq(views(v@)))));
    }
    Ghost(fields.push(enc_seq(views(v@))))
}

fn field_g2s(out: &mut Vec<u8>, v: &Vec<G2>, Ghost(before): Ghost<Seq<u8>>, Ghost(fields): Ghost<
    Seq<Seq<u8>>,
>) -> (next: Ghost<Seq<Seq<u8>>>)
    requires
        old(out)@ == before + enc_items(fields),
    ensures
        final(out)@ == before + enc_items(next@),
        next@ == fields.push(enc_seq(views(v@))),
        valid_g2s(views(v@)),
{
    put_g2s(out, v);
    proof {
        lemma_push_field(fields, enc_seq(views(v@)));
        assert(out@ =~= before + enc_items(fields.push(enc_seq(views(v@)))));
    }
    Ghost(fields.push(enc_seq(views(v@))))
}

/// The fields of a proof, each encoded, in order.
pub open spec fn proof_fields(v: ProofView) -> Seq<Seq<u8>> {
    seq![v.a, v.b, v.c, v.d, v.link_pi]
}

/// The encoding of a proof.
pub open spec fn enc_proof(v: ProofView) -> Seq<u8> {
    enc_items(proof_fields(v))
}

/// Whether every element of `v` is a canonical encoding.
pub open spec fn valid_proof(v: ProofView) -> bool {
    &&& G1::is_encoding(v.a)
    &&& G2::is_encoding(v.b)
    &&& G1::is_encoding(v.c)
    &&& G1::is_encoding(v.d)
    &&& G1::is_encoding(v.link_pi)
}

/// The proof that stands at `at`, with the place after it.
pub open spec fn parse_proof(b: Seq<u8>, at: int) -> Option<(ProofView, int)> {
    let a = parse_g1(b, at);
    let bb = parse_g2(b, end_of(a));
    let c = parse_g1(b, end_of(bb));
    let d = parse_g1(b, end_of(c));
    let link_pi = parse_g1(b, end_of(d));
    if a.is_some() && bb.is_some() && c.is_some() && d.is_some() && link_pi.is_some() {
        Some(
            (
                ProofView {
                    a: got(a),
                    b: got(bb),
                    c: got(c),
                    d: got(d),
                    link_pi: got(link_pi),
                },
                end_of(link_pi),
            ),
        )
    } else {
        None
    }
}

/// The proof that `b` encodes, where `b` is the encoding of one.
pub open spec fn decode_proof(b: Seq<u8>) -> Option<ProofView> {
    match parse_proof(b, 0) {
        Some((v, end)) => if end == b.len() {
            Some(v)
        } else {
            None
        },
        None => None,
    }
}

/// A proof that is encoded and then decoded is the same proof.
pub proof fn lemma_proof_round_trip(v: ProofView)
    requires
        valid_proof(v),
    ensures
        decode_proof(enc_proof(v)) == Some(v),
{
    let fields = proof_fields(v);
    let b = enc_proof(v);
    assert(piece(b, 0, b.len() as int) =~= b);
    lemma_start_next(fields, 0);
    lemma_field_at(b, 0, fields, 0);
    lemma_field_at(b, 0, fields, 1);
    lemma_field_at(b, 0, fields, 2);
    lemma_field_at(b, 0, fields, 3);
    lemma_field_at(b, 0, fields, 4);
    assert(fields.take(5) =~= fields);
}

impl Proof {
    /// The encoding of this proof.
    pub fn encode(&self) -> (out: Vec<u8>)
        ensures
            out@ == enc_proof(self@),
            valid_proof(self@),
            decode_proof(out@) == Some(self@),
    {

        let mut out: Vec<u8> = Vec::new();
        let ghost before = Seq::<u8>::empty();
        let f = Ghost(Seq::<Seq<u8>>::empty());
        assert(enc_items(f@) =~= Seq::<u8>::empty());
        assert(out@ =~= before + enc_items(f@));
        let f = field_g1(&mut out, &self.a, Ghost(before), f);
        let f = field_g2(&mut out, &self.b, Ghost(before), f);
        let f = field_g1(&mut out, &self.c, Ghost(before), f);
        let f = field_g1(&mut out, &self.d, Ghost(before), f);
        let f = field_g1(&mut out, &self.link_pi, Ghost(before), f);
        assert(f@ =~= proof_fields(self@));
        assert(out@ =~= enc_proof(self@));
        proof {
            lemma_proof_round_trip(self@);
        }
        out
    }

    /// The proof that `bytes` encode, where they are the encoding of one.
    pub fn decode(bytes: &Vec<u8>) -> (out: Option<Proof>)
        ensures
            out.is_some() == decode_proof(bytes@).is_some(),
            out.is_some() ==> Some(out.unwrap()@) == decode_proof(bytes@),
    {
        let (a, at) = match take_g1(bytes, 0) {
            Some(found) => found,
            None => { return None; },
        };
        let (b, at) = match take_g2(bytes, at) {
            Some(found) => found,
            None => { return None; },
        };
        let (c, at) = match take_g1(bytes, at) {
            Some(found) => found,
            None => { return None; },
        };
        let (d, at) = match take_g1(bytes, at) {
            Some(found) => found,
            None => { return None; },
        };
        let (link_pi, at) = match take_g1(bytes, at) {
            Some(found) => found,
            None => { return None; },
        };
        if at != bytes.len() {
            return None;
        }
        Some(Proof { a, b, c, d, link_pi })
    }
}

/// The fields of a verification key, each encoded, in order.
pub open spec fn vk_fields(v: VerifyingKeyView) -> Seq<Seq<u8>> {
    seq![
        v.alpha_g1,
        v.beta_g2,
        v.gamma_g2,
        v.delta_g2,
        enc_seq(v.gamma_abc_instance),
        enc_seq(v.gamma_abc_committed),
        v.eta_gamma_inv_g1,
        enc_count(v.link_pp.l),
        enc_count(v.link_pp.t),
        v.link_pp.g1,
        v.link_pp.g2,
        enc_seq(v.link_vk.c),
        v.link_vk.a,
    ]
}

/// The encoding of a verification key.
pub open spec fn enc_vk(v: VerifyingKeyView) -> Seq<u8> {
    enc_items(vk_fields(v))
}

/// Whether every element of `v` is a canonical encoding and every count can be
/// held.
pub open spec fn valid_vk(v: VerifyingKeyView) -> bool {
    &&& G1::is_encoding(v.alpha_g1)
    &&& G2::is_encoding(v.beta_g2)
    &&& G2::is_encoding(v.gamma_g2)
    &&& G2::is_encoding(v.delta_g2)
    &&& valid_g1s(v.gamma_abc_instance)
    &&& valid_g1s(v.gamma_abc_committed)
    &&& G1::is_encoding(v.eta_gamma_inv_g1)
    &&& v.link_pp.l <= usize::MAX
    &&& v.link_pp.t <= usize::MAX
    &&& G1::is_encoding(v.link_pp.g1)
    &&& G2::is_encoding(v.link_pp.g2)
    &&& valid_g2s(v.link_vk.c)
    &&& G2::is_encoding(v.link_vk.a)
}

/// The verification key that stands at `at`, with the place after it.
pub open spec fn parse_vk(b: Seq<u8>, at: int) -> Option<(VerifyingKeyView, int)> {
    let alpha_g1 = parse_g1(b, at);
    let beta_g2 = parse_g2(b, end_of(alpha_g1));
    let gamma_g2 = parse_g2(b, end_of(beta_g2));
    let delta_g2 = parse_g2(b, end_of(gamma_g2));
    let gamma_abc_instance = parse_g1s(b, end_of(delta_g2));
    let gamma_abc_committed = parse_g1s(b, end_of(gamma_abc_instance));
    let eta_gamma_inv_g1 = parse_g1(b, end_of(gamma_abc_committed));
    let l = parse_count(b, end_of(eta_gamma_inv_g1));
    let t = parse_count(b, end_of(l));
    let link_g1 = parse_g1(b, end_of(t));
    let link_g2 = parse_g2(b, end_of(link_g1));
    let link_c = parse_g2s(b, end_of(link_g2));
    let link_a = parse_g2(b, end_of(link_c));
    let all = alpha_g1.is_some()
        && beta_g2.is_some()
        && gamma_g2.is_some()
        && delta_g2.is_some()
        && gamma_abc_instance.is_some()
        && gamma_abc_committed.is_some()
        && eta_gamma_inv_g1.is_some()
        && l.is_some()
        && t.is_some()
        && link_g1.is_some()
        && link_g2.is_some()
        && link_c.is_some()
        && link_a.is_some();
    if all {
        Some(
            (
                VerifyingKeyView {
                    alpha_g1: got(alpha_g1),
                    beta_g2: got(beta_g2),
                    gamma_g2: got(gamma_g2),
                    delta_g2: got(delta_g2),
                    gamma_abc_instance: got(gamma_abc_instance),
                    gamma_abc_committed: got(gamma_abc_committed),
                    eta_gamma_inv_g1: got(eta_gamma_inv_g1),
                    link_pp: PPView { l: got(l), t: got(t), g1: got(link_g1), g2: got(link_g2) },
                    link_vk: VKView { c: got(link_c), a: got(link_a) },
                },
                end_of(link_a),
            ),
        )
    } else {
        None
    }
}

/// The verification key that `b` encodes, where `b` is the encoding of one.
pub open spec fn decode_vk(b: Seq<u8>) -> Option<VerifyingKeyView> {
    match parse_vk(b, 0) {
        Some((v, end)) => if end == b.len() {
            Some(v)
        } else {
            None
        },
        None => None,
    }
}

/// A verification key that was written at `at` is read back from there.
pub proof fn lemma_parse_vk(b: Seq<u8>, at: int, v: VerifyingKeyView)
    requires
        valid_vk(v),
        0 <= at,
        at + enc_vk(v).len() <= b.len(),
        piece(b, at, enc_vk(v).len() as int) == enc_vk(v),
    ensures
        parse_vk(b, at) == Some((v, at + enc_vk(v).len())),
{
    let fields = vk_fields(v);
    lemma_start_next(fields, 0);
    lemma_field_at(b, at, fields, 0);
    lemma_field_at(b, at, fields, 1);
    lemma_field_at(b, at, fields, 2);
    lemma_field_at(b, at, fields, 3);
    lemma_field_at(b, at, fields, 4);
    lemma_field_at(b, at, fields, 5);
    lemma_field_at(b, at, fields, 6);
    lemma_field_at(b, at, fields, 7);
    lemma_field_at(b, at, fields, 8);
    lemma_field_at(b, at, fields, 9);
    lemma_field_at(b, at, fields, 10);
    lemma_field_at(b, at, fields, 11);
    lemma_field_at(b, at, fields, 12);
    lemma_parse_g1s(b, at + start(fields, 4), v.gamma_abc_instance);
    lemma_parse_g1s(b, at + start(fields, 5), v.gamma_abc_committed);
    lemma_parse_count(b, at + start(fields, 7), v.link_pp.l);
    lemma_parse_count(b, at + start(fields, 8), v.link_pp.t);
    lemma_parse_g2s(b, at + start(fields, 11), v.link_vk.c);
    assert(fields.take(13) =~= fields);
    let found = parse_vk(b, at);
    assert(found.is_some());
    assert(got(found).link_pp == v.link_pp);
    assert(got(found).link_vk == v.link_vk);
}

/// A verification key that is encoded and then decoded is the same key.
pub proof fn lemma_vk_round_trip(v: VerifyingKeyView)
    requires
        valid_vk(v),
    ensures
        decode_vk(enc_vk(v)) == Some(v),
{
    let b = enc_vk(v);
    assert(piece(b, 0, b.len() as int) =~= b);
    lemma_parse_vk(b, 0, v);
}

/// The fields of the prover's part of a proving key, each encoded, in order.
pub open spec fn common_fields(v: ProvingKeyCommonView) -> Seq<Seq<u8>> {
    seq![
        v.beta_g1,
        v.delta_g1,
        v.eta_delta_inv_g1,
        enc_seq(v.a_query),
        enc_seq(v.b_g1_query),
        enc_seq(v.b_g2_query),
        enc_seq(v.h_query),
        enc_seq(v.l_query),
        enc_seq(v.link_ek),
    ]
}

/// The encoding of a proving key: its verification key, then the prover's
/// part.
pub open spec fn enc_pk(v: ProvingKeyView) -> Seq<u8> {
    enc_vk(v.vk) + enc_items(common_fields(v.common))
}

/// Whether every element of `v` is a canonical encoding.
pub open spec fn valid_common(v: ProvingKeyCommonView) -> bool {
    &&& G1::is_encoding(v.beta_g1)
    &&& G1::is_encoding(v.delta_g1)
    &&& G1::is_encoding(v.eta_delta_inv_g1)
    &&& valid_g1s(v.a_query)
    &&& valid_g1s(v.b_g1_query)
    &&& valid_g2s(v.b_g2_query)
    &&& valid_g1s(v.h_query)
    &&& valid_g1s(v.l_query)
    &&& valid_g1s(v.link_ek)
}

/// Whether every element of `v` is a canonical encoding and every count can be
/// held.
pub open spec fn valid_pk(v: ProvingKeyView) -> bool {
    valid_vk(v.vk) && valid_common(v.common)
}

/// The prover's part of a proving key that stands at `at`, with the place
/// after it.
pub open spec fn parse_common(b: Seq<u8>, at: int) -> Option<(ProvingKeyCommonView, int)> {
    let beta_g1 = parse_g1(b, at);
    let delta_g1 = parse_g1(b, end_of(beta_g1));
    let eta_delta_inv_g1 = parse_g1(b, end_of(delta_g1));
    let a_query = parse_g1s(b, end_of(eta_delta_inv_g1));
    let b_g1_query = parse_g1s(b, end_of(a_query));
    let b_g2_query = parse_g2s(b, end_of(b_g1_query));
    let h_query = parse_g1s(b, end_of(b_g2_query));
    let l_query = parse_g1s(b, end_of(h_query));
    let link_ek = parse_g1s(b, end_of(l_query));
    let all = beta_g1.is_some()
        && delta_g1.is_some()
        && eta_delta_inv_g1.is_some()
        && a_query.is_some()
        && b_g1_query.is_some()
        && b_g2_query.is_some()
        && h_query.is_some()
        && l_query.is_some()
        && link_ek.is_some();
    if all {
        Some(
            (
                ProvingKeyCommonView {
                    beta_g1: got(beta_g1),
                    delta_g1: got(delta_g1),
                    eta_delta_inv_g1: got(eta_delta_inv_g1),
                    a_query: got(a_query),
                    b_g1_query: got(b_g1_query),
                    b_g2_query: got(b_g2_query),
                    h_query: got(h_query),
                    l_query: got(l_query),
                    link_ek: got(link_ek),
                },
                end_of(link_ek),
            ),
        )
    } else {
        None
    }
}

/// The proving key that stands at `at`, with the place after it.
pub open spec fn parse_pk(b: Seq<u8>, at: int) -> Option<(ProvingKeyView, int)> {
    let vk = parse_vk(b, at);
    let common = parse_common(b, end_of(vk));
    if vk.is_some() && common.is_some() {
        Some((ProvingKeyView { vk: got(vk), common: got(common) }, end_of(common)))
    } else {
        None
    }
}

/// The proving key that `b` encodes, where `b` is the encoding of one.
pub open spec fn decode_pk(b: Seq<u8>) -> Option<ProvingKeyView> {
    match parse_pk(b, 0) {
        Some((v, end)) => if end == b.len() {
            Some(v)
        } else {
            None
        },
        None => None,
    }
}

/// The prover's part of a proving key that was written at `at` is read back
/// from there.
pub proof fn lemma_parse_common(b: Seq<u8>, at: int, v: ProvingKeyCommonView)
    requires
        valid_common(v),
        0 <= at,
        at + enc_items(common_fields(v)).len() <= b.len(),
        piece(b, at, enc_items(common_fields(v)).len() as int) == enc_items(common_fields(v)),
    ensures
        parse_common(b, at) == Some((v, at + enc_items(common_fields(v)).len())),
{
    let fields = common_fields(v);
    lemma_start_next(fields, 0);
    lemma_field_at(b, at, fields, 0);
    lemma_field_at(b, at, fields, 1);
    lemma_field_at(b, at, fields, 2);
    lemma_field_at(b, at, fields, 3);
    lemma_field_at(b, at, fields, 4);
    lemma_field_at(b, at, fields, 5);
    lemma_field_at(b, at, fields, 6);
    lemma_field_at(b, at, fields, 7);
    lemma_field_at(b, at, fields, 8);
    lemma_parse_g1s(b, at + start(fields, 3), v.a_query);
    lemma_parse_g1s(b, at + start(fields, 4), v.b_g1_query);
    lemma_parse_g2s(b, at + start(fields, 5), v.b_g2_query);
    lemma_parse_g1s(b, at + start(fields, 6), v.h_query);
    lemma_parse_g1s(b, at + start(fields, 7), v.l_query);
    lemma_parse_g1s(b, at + start(fields, 8), v.link_ek);
    assert(fields.take(9) =~= fields);
}

/// A proving key that is encoded and then decoded is the same key.
pub proof fn lemma_pk_round_trip(v: ProvingKeyView)
    requires
        valid_pk(v),
    ensures
        decode_pk(enc_pk(v)) == Some(v),
{
    let b = enc_pk(v);
    let fields = common_fields(v.common);
    let from = enc_vk(v.vk).len() as int;
    assert(piece(b, 0, from) =~= enc_vk(v.vk));
    lemma_parse_vk(b, 0, v.vk);
    assert(piece(b, from, enc_items(fields).len() as int) =~= enc_items(fields));
    lemma_parse_common(b, from, v.common);
}

/// Writes a verification key into an empty buffer.
fn put_vk(out: &mut Vec<u8>, vk: &VerifyingKey)
    requires
        old(out)@.len() == 0,
    ensures
        final(out)@ == enc_vk(vk@),
        valid_vk(vk@),
{
    let ghost before = Seq::<u8>::empty();
    let f = Ghost(Seq::<Seq<u8>>::empty());
    assert(enc_items(f@) =~= Seq::<u8>::empty());
    assert(out@ =~= before + enc_items(f@));
    let f = field_g1(out, &vk.alpha_g1, Ghost(before), f);
    let f = field_g2(out, &vk.beta_g2, Ghost(before), f);
    let f = field_g2(out, &vk.gamma_g2, Ghost(before), f);
    let f = field_g2(out, &vk.delta_g2, Ghost(before), f);
    let f = field_g1s(out, &vk.gamma_abc_g1.0, Ghost(before), f);
    let f = field_g1s(out, &vk.gamma_abc_g1.1, Ghost(before), f);
    let f = field_g1(out, &vk.eta_gamma_inv_g1, Ghost(before), f);
    let f = field_count(out, vk.link_pp.l, Ghost(before), f);
    let f = field_count(out, vk.link_pp.t, Ghost(before), f);
    let f = field_g1(out, &vk.link_pp.g1, Ghost(before), f);
    let f = field_g2(out, &vk.link_pp.g2, Ghost(before), f);
    let f = field_g2s(out, &vk.link_vk.c, Ghost(before), f);
    let f = field_g2(out, &vk.link_vk.a, Ghost(before), f);
    assert(f@ =~= vk_fields(vk@));
    assert(out@ =~= enc_vk(vk@));
}

/// Reads the verification key at `at`.
fn take_vk(bytes: &Vec<u8>, at: usize) -> (out: Option<(VerifyingKey, usize)>)
    ensures
        out.is_some() == parse_vk(bytes@, at as int).is_some(),
        out.is_some() ==> (out.unwrap().0@, out.unwrap().1 as int) == parse_vk(
            bytes@,
            at as int,
        ).unwrap(),
{
    let ghost first = at as int;
    let (alpha_g1, at) = match take_g1(bytes, at) {
        Some(found) => found,
        None => { return None; },
    };
    let (beta_g2, at) = match take_g2(bytes, at) {
        Some(found) => found,
        None => { return None; },
    };
    let (gamma_g2, at) = match take_g2(bytes, at) {
        Some(found) => found,
        None => { return None; },
    };
    let (delta_g2, at) = match take_g2(bytes, at) {
        Some(found) => found,
        None => { return None; },
    };
    let (gamma_abc_instance, at) = match take_g1s(bytes, at) {
        Some(found) => found,
        None => { return None; },
    };
    let (gamma_abc_committed, at) = match take_g1s(bytes, at) {
        Some(found) => found,
        None => { return None; },
    };
    let (eta_gamma_inv_g1, at) = match take_g1(bytes, at) {
        Some(found) => found,
        None => { return None; },
    };
    let (l, at) = match take_count(bytes, at) {
        Some(found) => found,
        None => { return None; },
    };
    let (t, at) = match take_count(bytes, at) {
        Some(found) => found,
        None => { return None; },
    };
    let (link_g1, at) = match take_g1(bytes, at) {
        Some(found) => found,
        None => { return None; },
    };
    let (link_g2, at) = match take_g2(bytes, at) {
        Some(found) => found,
        None => { return None; },
    };
    let (link_c, at) = match take_g2s(bytes, at) {
        Some(found) => found,
        None => { return None; },
    };
    let (link_a, end) = match take_g2(bytes, at) {
        Some(found) => found,
        None => { return None; },
    };

    let vk = VerifyingKey {
        alpha_g1,
        beta_g2,
        gamma_g2,
        delta_g2,
        gamma_abc_g1: QueryPair(gamma_abc_instance, gamma_abc_committed),
        eta_gamma_inv_g1,
        link_pp: PP { l, t, g1: link_g1, g2: link_g2 },
        link_vk: VK { c: link_c, a: link_a },
    };
    assert(vk@.link_pp == parse_vk(bytes@, first).unwrap().0.link_pp);
    assert(vk@.link_vk == parse_vk(bytes@, first).unwrap().0.link_vk);
    Some((vk, end))
}

impl VerifyingKey {
    /// The encoding of this key.
    pub fn encode(&self) -> (out: Vec<u8>)
        ensures
            out@ == enc_vk(self@),
            valid_vk(self@),
            decode_vk(out@) == Some(self@),
    {
        let mut out: Vec<u8> = Vec::new();
        put_vk(&mut out, self);
        proof {
            lemma_vk_round_trip(self@);
        }
        out
    }

    /// The key that `bytes` encode, where they are the encoding of one.
    pub fn decode(bytes: &Vec<u8>) -> (out: Option<VerifyingKey>)
        ensures
            out.is_some() == decode_vk(bytes@).is_some(),
            out.is_some() ==> Some(out.unwrap()@) == decode_vk(bytes@),
    {
        match take_vk(bytes, 0) {
            Some((vk, end)) => {
                if end == bytes.len() {
                    Some(vk)
                } else {
                    None
                }
            },
            None => None,
        }
    }
}

impl ProvingKey {
    /// The encoding of this key.
    pub fn encode(&self) -> (out: Vec<u8>)
        ensures
            out@ == enc_pk(self@),
            valid_pk(self@),
            decode_pk(out@) == Some(self@),
    {
        let pk = self;
        let mut out: Vec<u8> = Vec::new();
        put_vk(&mut out, &pk.vk);
        let ghost before = out@;
        let f = Ghost(Seq::<Seq<u8>>::empty());
        assert(enc_items(f@) =~= Seq::<u8>::empty());
        assert(out@ =~= before + enc_items(f@));
        let f = field_g1(&mut out, &pk.common.beta_g1, Ghost(before), f);
        let f = field_g1(&mut out, &pk.common.delta_g1, Ghost(before), f);
        let f = field_g1(&mut out, &pk.common.eta_delta_inv_g1, Ghost(before), f);
        let f = field_g1s(&mut out, &pk.common.a_query, Ghost(before), f);
        let f = field_g1s(&mut out, &pk.common.b_g1_query, Ghost(before), f);
        let f = field_g2s(&mut out, &pk.common.b_g2_query, Ghost(before), f);
        let f = field_g1s(&mut out, &pk.common.h_query, Ghost(before), f);
        let f = field_g1s(&mut out, &pk.common.l_query, Ghost(before), f);
        let f = field_g1s(&mut out, &pk.common.link_ek.p, Ghost(before), f);
        assert(f@ =~= common_fields(pk.common@));
        proof {
            lemma_pk_round_trip(self@);
        }
        out
    }

    /// The key that `bytes` encode, where they are the encoding of one.
    pub fn decode(bytes: &Vec<u8>) -> (out: Option<ProvingKey>)
        ensures
            out.is_some() == decode_pk(bytes@).is_some(),
            out.is_some() ==> Some(out.unwrap()@) == decode_pk(bytes@),
    {
        let (vk, at) = match take_vk(bytes, 0) {
            Some(found) => found,
            None => { return None; },
        };
        let (common, at) = match take_common(bytes, at) {
            Some(found) => found,
            None => { return None; },
        };
        if at != bytes.len() {
            return None;
        }
        Some(ProvingKey { vk, common })
    }
}

/// Reads the prover's part of a proving key at `at`.
fn take_common(bytes: &Vec<u8>, at: usize) -> (out: Option<(ProvingKeyCommon, usize)>)
    ensures
        out.is_some() == parse_common(bytes@, at as int).is_some(),
        out.is_some() ==> (out.unwrap().0@, out.unwrap().1 as int) == parse_common(
            bytes@,
            at as int,
        ).unwrap(),
{
    let (beta_g1, at) = match take_g1(bytes, at) {
        Some(found) => found,
        None => { return None; },
    };
    let (delta_g1, at) = match take_g1(bytes, at) {
        Some(found) => found,
        None => { return None; },
    };
    let (eta_delta_inv_g1, at) = match take_g1(bytes, at) {
        Some(found) => found,
        None => { return None; },
    };
    let (a_query, at) = match take_g1s(bytes, at) {
        Some(found) => found,
        None => { return None; },
    };
    let (b_g1_query, at) = match take_g1s(bytes, at) {
        Some(found) => found,
        None => { return None; },
    };
    let (b_g2_query, at) = match take_g2s(bytes, at) {
        Some(found) => found,
        None => { return None; },
    };
    let (h_query, at) = match take_g1s(bytes, at) {
        Some(found) => found,
        None => { return None; },
    };
    let (l_query, at) = match take_g1s(bytes, at) {
        Some(found) => found,
        None => { return None; },
    };
    let (link_ek, end) = match take_g1s(bytes, at) {
        Some(found) => found,
        None => { return None; },
    };

    let common = ProvingKeyCommon {
        beta_g1,
        delta_g1,
        eta_delta_inv_g1,
        a_query,
        b_g1_query,
        b_g2_query,
        h_query,
        l_query,
        link_ek: EK { p: link_ek },
    };
    Some((common, end))
}

} // verus!

//! The argument itself: key generation from a sparse matrix, proving and
//! verifying. Key generation makes a trapdoor, so it is a trusted setup.

use crate::algebra::{
    fr_product, g1_identity, g1_msm, g1_scaled, g1_sum, g2_copies, g2_negated,
    g2_scaled, gt_identity, pairing_product, views, Gt, Scalar, G1, G2,
};
use crate::link::utils::{inner_product, multiples_of_g, scale_vector};
use vstd::prelude::*;

verus! {

/// Public parameters.
#[derive(Clone, Debug, PartialEq)]
pub struct PP {
    /// Number of rows of the matrix.
    pub l: usize,
    /// Number of columns of the matrix.
    pub t: usize,
    pub g1: G1,
    pub g2: G2,
}

impl PP {
    pub fn new(l: usize, t: usize, g1: G1, g2: G2) -> (pp: PP)
        ensures
            pp.l == l,
            pp.t == t,
            pp.g1 == g1,
            pp.g2 == g2,
    {
        PP { l, t, g1, g2 }
    }
}

/// Evaluation key: one point per column of the matrix.
#[derive(Clone, Debug, PartialEq)]
pub struct EK {
    pub p: Vec<G1>,
}

/// Verification key: one point per row of the matrix, and one more.
#[derive(Clone, Debug, PartialEq)]
pub struct VK {
    pub c: Vec<G2>,
    pub a: G2,
}

/// What the public parameters hold.
pub struct PPView {
    pub l: nat,
    pub t: nat,
    pub g1: Seq<u8>,
    pub g2: Seq<u8>,
}

/// What a verification key holds.
pub struct VKView {
    pub c: Seq<Seq<u8>>,
    pub a: Seq<u8>,
}

impl View for PP {
    type V = PPView;

    open spec fn view(&self) -> PPView {
        PPView { l: self.l as nat, t: self.t as nat, g1: self.g1@, g2: self.g2@ }
    }
}

impl View for EK {
    type V = Seq<Seq<u8>>;

    open spec fn view(&self) -> Seq<Seq<u8>> {
        views(self.p@)
    }
}

impl View for VK {
    type V = VKView;

    open spec fn view(&self) -> VKView {
        VKView { c: views(self.c@), a: self.a@ }
    }
}

impl PP {
    /// A copy of these parameters.
    pub fn duplicate(&self) -> (out: PP)
        ensures
            out@ == self@,
    {
        PP { l: self.l, t: self.t, g1: self.g1.duplicate(), g2: self.g2.duplicate() }
    }
}

impl VK {
    /// A copy of this key.
    pub fn duplicate(&self) -> (out: VK)
        ensures
            out@ == self@,
    {
        VK { c: g2_copies(&self.c), a: self.a.duplicate() }
    }
}

/// One row of the sparse matrix: `bases` fill the columns from `start` on, and
/// `blind_base` stands in column `blind_column`. Every other entry is zero.
#[derive(Clone, Debug, PartialEq)]
pub struct Row {
    pub start: usize,
    pub bases: Vec<G1>,
    pub blind_column: usize,
    pub blind_base: G1,
}

/// What a row of the matrix holds.
pub struct RowView {
    pub start: nat,
    pub bases: Seq<Seq<u8>>,
    pub blind_column: nat,
    pub blind_base: Seq<u8>,
}

impl View for Row {
    type V = RowView;

    open spec fn view(&self) -> RowView {
        RowView {
            start: self.start as nat,
            bases: views(self.bases@),
            blind_column: self.blind_column as nat,
            blind_base: self.blind_base@,
        }
    }
}

/// The entry of `row` in column `i`, multiplied by the row's trapdoor scalar.
pub open spec fn row_term(row: RowView, trapdoor: Seq<u8>, i: int) -> Seq<u8> {
    if row.start <= i < row.start + row.bases.len() {
        g1_scaled(row.bases[i - row.start], trapdoor)
    } else if i == row.blind_column {
        g1_scaled(row.blind_base, trapdoor)
    } else {
        g1_identity()
    }
}

/// Column `i` of the matrix applied to the trapdoor vector, over the first `n`
/// rows.
pub open spec fn column_sum(m: Seq<RowView>, trapdoor: Seq<Seq<u8>>, i: int, n: nat) -> Seq<u8>
    decreases n,
{
    if n == 0 {
        g1_identity()
    } else {
        g1_sum(
            column_sum(m, trapdoor, i, (n - 1) as nat),
            row_term(m[n - 1], trapdoor[n - 1], i),
        )
    }
}

/// The evaluation key of the matrix `m` with `t` columns for the trapdoor
/// vector `trapdoor`: every column applied to it.
pub open spec fn link_ek(t: nat, m: Seq<RowView>, trapdoor: Seq<Seq<u8>>) -> Seq<Seq<u8>> {
    Seq::new(t, |i: int| column_sum(m, trapdoor, i, m.len()))
}

/// The verification key for the generator `g2`, the trapdoor vector
/// `trapdoor` and the blinding scalar `a`.
pub open spec fn link_vk(g2: Seq<u8>, trapdoor: Seq<Seq<u8>>, a: Seq<u8>) -> VKView {
    VKView {
        c: Seq::new(trapdoor.len(), |u: int| g2_scaled(g2, fr_product(a, trapdoor[u]))),
        a: g2_scaled(g2, a),
    }
}

/// Whether the rows of `m` can be laid out: no row's columns run past the
/// largest index.
pub open spec fn rows_fit(m: Seq<RowView>) -> bool {
    forall|u: int| 0 <= u < m.len() ==> (#[trigger] m[u]).start + m[u].bases.len() <= usize::MAX
}

/// Whether `m` is a matrix of `l` rows by `t` columns: it has `l` rows, and
/// every row keeps its bases and its blinding base within the `t` columns.
pub open spec fn matrix_fits(m: Seq<RowView>, l: nat, t: nat) -> bool {
    &&& m.len() == l
    &&& forall|u: int|
        0 <= u < m.len() ==> (#[trigger] m[u]).start + m[u].bases.len() <= t && m[u].blind_column
            < t
}

/// Whether `pi` is accepted for the targets `x`: the product of the pairings
/// of each target with its key point, and of the proof with the negated extra
/// key point, is the neutral value.
pub open spec fn link_accepts(vk: VKView, x: Seq<Seq<u8>>, pi: Seq<u8>) -> bool {
    pairing_product(x.push(pi), vk.c.take(x.len() as int).push(g2_negated(vk.a))) == Some(
        gt_identity(),
    )
}

pub struct PESubspaceSnark {}

impl PESubspaceSnark {
    /// The entry of row `row` in column `i`, multiplied by `trapdoor`.
    fn scaled_entry(row: &Row, trapdoor: &Scalar, i: usize) -> (out: G1)
        requires
            row.start + row.bases@.len() <= usize::MAX,
        ensures
            out@ == row_term(row@, trapdoor@, i as int),
    {
        if i >= row.start && i < row.start + row.bases.len() {
            row.bases[i - row.start].scale(trapdoor)
        } else if i == row.blind_column {
            row.blind_base.scale(trapdoor)
        } else {
            G1::identity()
        }
    }

    /// Column `i` of the matrix applied to the trapdoor vector.
    fn column(m: &Vec<Row>, trapdoor: &Vec<Scalar>, i: usize) -> (out: G1)
        requires
            m@.len() <= trapdoor@.len(),
            rows_fit(views(m@)),
        ensures
            out@ == column_sum(views(m@), views(trapdoor@), i as int, m@.len()),
    {
        let mut acc = G1::identity();
        let mut u: usize = 0;
        while u < m.len()
            invariant
                u <= m@.len(),
                m@.len() <= trapdoor@.len(),
                rows_fit(views(m@)),
                acc@ == column_sum(views(m@), views(trapdoor@), i as int, u as nat),
            decreases m@.len() - u,
        {
            assert(views(m@)[u as int] == m@[u as int]@);
            let term = Self::scaled_entry(&m[u], &trapdoor[u], i);
            acc = acc.plus(&term);
            u += 1;
        }
        acc
    }

    /// The keys of the matrix `m` for a given trapdoor vector and blinding
    /// scalar. The matrix has the rows and columns that the parameters name,
    /// and the trapdoor one scalar per row; whoever keeps it can forge proofs.
    pub fn keygen_with_trapdoor(pp: &PP, m: &Vec<Row>, trapdoor: &Vec<Scalar>, a: &Scalar) -> (keys:
        (EK, VK))
        requires
            trapdoor@.len() == pp.l,
            matrix_fits(views(m@), pp.l as nat, pp.t as nat),
        ensures
            keys.0@ == link_ek(pp.t as nat, views(m@), views(trapdoor@)),
            keys.1@ == link_vk(pp.g2@, views(trapdoor@), a@),
    {
        assert(views(m@).len() == m@.len());
        assert(rows_fit(views(m@)));
        let mut p: Vec<G1> = Vec::new();
        let mut i: usize = 0;
        while i < pp.t
            invariant
                i <= pp.t,
                p@.len() == i,
                m@.len() <= trapdoor@.len(),
                rows_fit(views(m@)),
                forall|j: int|
                    0 <= j < i ==> (#[trigger] p@[j])@ == column_sum(
                        views(m@),
                        views(trapdoor@),
                        j,
                        m@.len(),
                    ),
            decreases pp.t - i,
        {
            p.push(Self::column(m, trapdoor, i));
            i += 1;
        }
        let c = scale_vector(a, trapdoor);
        let ek = EK { p };
        let vk = VK { c: multiples_of_g(&pp.g2, &c), a: pp.g2.scale(a) };
        assert(ek@ =~= link_ek(pp.t as nat, views(m@), views(trapdoor@)));
        assert(vk@.c =~= link_vk(pp.g2@, views(trapdoor@), a@).c);
        (ek, vk)
    }

    /// Keys for the matrix `m`, from a trapdoor drawn from `rng`: one scalar
    /// per row and one blinding scalar. The matrix has the rows and columns
    /// that the parameters name, and should be such that a column has more
    /// than one entry only where those entries stand for one value.
    pub fn keygen(rng: &mut ark_std::rand::rngs::StdRng, pp: &PP, m: &Vec<Row>) -> (keys: (EK, VK))
        requires
            matrix_fits(views(m@), pp.l as nat, pp.t as nat),
        ensures
            exists|trapdoor: Seq<Seq<u8>>, a: Seq<u8>|
                {
                    &&& trapdoor.len() == pp.l
                    &&& keys.0@ == link_ek(pp.t as nat, views(m@), trapdoor)
                    &&& keys.1@ == #[trigger] link_vk(pp.g2@, trapdoor, a)
                },
    {
        let mut t: Vec<Scalar> = Vec::new();
        let mut i: usize = 0;
        while i < pp.l
            invariant
                i <= pp.l,
                t@.len() == i,
            decreases pp.l - i,
        {
            t.push(Scalar::random(rng));
            i += 1;
        }
        let a = Scalar::random(rng);
        let keys = Self::keygen_with_trapdoor(pp, m, &t, &a);
        assert(views(t@).len() == pp.l);
        assert(keys.1@ == link_vk(pp.g2@, views(t@), a@));
        keys
    }

    /// The proof for the witness `w`: its multi-scalar multiplication with the
    /// evaluation key.
    pub fn prove(pp: &PP, ek: &EK, w: &Vec<Scalar>) -> (pi: G1)
        requires
            pp.t >= w@.len(),
        ensures
            pi@ == g1_msm(views(ek.p@), views(w@)),
    {
        inner_product(w, &ek.p)
    }

    /// Whether `pi` proves the targets `x`: the product of the pairings of
    /// each target with its key point and of the proof with the negated extra
    /// key point is the neutral value.
    pub fn verify(pp: &PP, vk: &VK, x: &Vec<G1>, pi: &G1) -> (ok: bool)
        requires
            pp.l == x@.len(),
            vk.c@.len() >= x@.len(),
        ensures
            ok == link_accepts(vk@, views(x@), pi@),
    {
        let mut a: Vec<G1> = Vec::new();
        let mut b: Vec<G2> = Vec::new();
        let mut i: usize = 0;
        while i < x.len()
            invariant
                i <= x@.len(),
                x@.len() <= vk.c@.len(),
                a@.len() == i,
                b@.len() == i,
                forall|j: int| 0 <= j < i ==> (#[trigger] a@[j])@ == x@[j]@,
                forall|j: int| 0 <= j < i ==> (#[trigger] b@[j])@ == vk.c@[j]@,
            decreases x@.len() - i,
        {
            a.push(x[i].duplicate());
            b.push(vk.c[i].duplicate());
            i += 1;
        }
        a.push(pi.duplicate());
        b.push(vk.a.negate());
        assert(views(a@) =~= views(x@).push(pi@));
        assert(views(b@) =~= views(vk.c@).take(x@.len() as int).push(g2_negated(vk.a@)));
        match Gt::pairing_product(&a, &b) {
            Some(e) => e.is_identity(),
            None => false,
        }
    }
}

} // verus!

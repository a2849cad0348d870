//! Vector operations over scalars and group elements.

use crate::algebra::{fr_product, g1_msm, g2_scaled, views, Scalar, G1, G2};
use vstd::prelude::*;

verus! {

/// Multi-scalar multiplication of the points `b` by the scalars `a`, over the
/// indices that both have.
pub fn inner_product(a: &Vec<Scalar>, b: &Vec<G1>) -> (out: G1)
    ensures
        out@ == g1_msm(views(b@), views(a@)),
{
    G1::msm(b.as_slice(), a.as_slice())
}

/// The vector `v` with every entry multiplied by `a`.
pub fn scale_vector(a: &Scalar, v: &Vec<Scalar>) -> (out: Vec<Scalar>)
    ensures
        out@.len() == v@.len(),
        forall|i: int| 0 <= i < v@.len() ==> (#[trigger] out@[i])@ == fr_product(a@, v@[i]@),
{
    let mut out: Vec<Scalar> = Vec::new();
    let mut i: usize = 0;
    while i < v.len()
        invariant
            i <= v.len(),
            out@.len() == i,
            forall|j: int| 0 <= j < i ==> (#[trigger] out@[j])@ == fr_product(a@, v@[j]@),
        decreases v.len() - i,
    {
        out.push(a.times(&v[i]));
        i += 1;
    }
    out
}

/// The multiples `multiples[i] * g` of the point `g`.
pub fn multiples_of_g(g: &G2, multiples: &Vec<Scalar>) -> (out: Vec<G2>)
    ensures
        out@.len() == multiples@.len(),
        forall|i: int|
            0 <= i < multiples@.len() ==> (#[trigger] out@[i])@ == g2_scaled(g@, multiples@[i]@),
{
    g.batch_scale(multiples)
}

} // verus!

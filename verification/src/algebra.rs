//! The algebra back-end: scalars of the BLS12-381 scalar field, points of its
//! two source groups and values of its target group.
//!
//! Every element is held as its canonical compressed encoding, and the
//! contracts speak of those encodings. A scalar or a point always holds bytes
//! that decode and encode to themselves, so the operations can decode what
//! they are given. The arithmetic itself is done by the arkworks crates; each
//! operation below that reaches them is believed, not proved, and says so in
//! its documentation. Each of them hands out canonical encodings only.

use ark_bls12_381::{Bls12_381, Fr, G1Affine, G1Projective, G2Affine, G2Projective};
use ark_ec::pairing::Pairing;
use ark_ec::{AffineRepr, CurveGroup, ScalarMul, VariableBaseMSM};
use ark_ff::{Field, One, UniformRand, Zero};
use ark_serialize::{CanonicalDeserialize, CanonicalSerialize};
use vstd::prelude::*;

verus! {

/// Length in bytes of an encoded scalar.
pub const SCALAR_BYTES: usize = 32;

/// Length in bytes of an encoded point of the first source group.
pub const G1_BYTES: usize = 48;

/// Length in bytes of an encoded point of the second source group.
pub const G2_BYTES: usize = 96;

/// Length in bytes of an encoded target-group value.
pub const GT_BYTES: usize = 576;

/// The canonical encoding of one element.
pub type Encoding = Seq<u8>;

/// The canonical encodings of a sequence of elements.
pub type Encodings = Seq<Seq<u8>>;

/// The random number generator `rand::rngs::StdRng`, by the path under which
/// `ark_std` hands it on. It is only passed through to the functions that
/// draw from it.
#[verifier::external_type_specification]
#[verifier::external_body]
pub struct ExStdRng(ark_std::rand::rngs::StdRng);

/// What decoding `bytes` as a scalar and encoding the outcome again gives;
/// `None` where `bytes` do not decode.
pub uninterp spec fn scalar_canonical_form(bytes: Seq<u8>) -> Option<Seq<u8>>;

/// What decoding `bytes` as a point of the first group (with the subgroup
/// test) and encoding the outcome again gives; `None` where they do not decode.
pub uninterp spec fn g1_canonical_form(bytes: Seq<u8>) -> Option<Seq<u8>>;

/// What decoding `bytes` as a point of the second group (with the subgroup
/// test) and encoding the outcome again gives; `None` where they do not decode.
pub uninterp spec fn g2_canonical_form(bytes: Seq<u8>) -> Option<Seq<u8>>;

/// Encoding of the sum of two scalars.
pub uninterp spec fn fr_sum(a: Seq<u8>, b: Seq<u8>) -> Seq<u8>;

/// Encoding of the product of two scalars.
pub uninterp spec fn fr_product(a: Seq<u8>, b: Seq<u8>) -> Seq<u8>;

/// Encoding of the multiplicative inverse of a scalar, `None` for zero.
pub uninterp spec fn fr_inverse(a: Seq<u8>) -> Option<Seq<u8>>;

/// Encoding of the sum of two points of the first group.
pub uninterp spec fn g1_sum(a: Seq<u8>, b: Seq<u8>) -> Seq<u8>;

/// Encoding of the difference of two points of the first group.
pub uninterp spec fn g1_difference(a: Seq<u8>, b: Seq<u8>) -> Seq<u8>;

/// Encoding of the point `p` of the first group multiplied by the scalar `s`.
pub uninterp spec fn g1_scaled(p: Seq<u8>, s: Seq<u8>) -> Seq<u8>;

/// Encoding of the sum of two points of the second group.
pub uninterp spec fn g2_sum(a: Seq<u8>, b: Seq<u8>) -> Seq<u8>;

/// Encoding of the point `p` of the second group multiplied by the scalar `s`.
pub uninterp spec fn g2_scaled(p: Seq<u8>, s: Seq<u8>) -> Seq<u8>;

/// Encoding of the negation of a point of the second group.
pub uninterp spec fn g2_negated(p: Seq<u8>) -> Seq<u8>;

/// Encoding of the product of the pairings of `a[i]` with `b[i]`, after the
/// final exponentiation; `None` where the final exponentiation has no result.
pub uninterp spec fn pairing_product(a: Seq<Seq<u8>>, b: Seq<Seq<u8>>) -> Option<Seq<u8>>;

/// Encoding of the scalar zero.
pub open spec fn scalar_zero() -> Seq<u8> {
    Seq::new(SCALAR_BYTES as nat, |i: int| 0u8)
}

/// Encoding of the scalar one.
pub open spec fn scalar_one() -> Seq<u8> {
    Seq::new(SCALAR_BYTES as nat, |i: int| if i == 0 { 1u8 } else { 0u8 })
}

/// Encoding of the neutral point of the first group.
pub open spec fn g1_identity() -> Seq<u8> {
    Seq::new(G1_BYTES as nat, |i: int| if i == 0 { 0xc0u8 } else { 0u8 })
}

/// Encoding of the neutral point of the second group.
pub open spec fn g2_identity() -> Seq<u8> {
    Seq::new(G2_BYTES as nat, |i: int| if i == 0 { 0xc0u8 } else { 0u8 })
}

/// Encoding of the neutral value of the target group.
pub open spec fn gt_identity() -> Seq<u8> {
    Seq::new(GT_BYTES as nat, |i: int| if i == 0 { 1u8 } else { 0u8 })
}

/// The encodings of a sequence of elements.
pub open spec fn views<T: View>(s: Seq<T>) -> Seq<T::V> {
    Seq::new(s.len(), |i: int| s[i]@)
}

/// Sum of `scalars[i] * bases[i]` in the first group over the first `n` indices.
pub open spec fn g1_msm_upto(bases: Seq<Seq<u8>>, scalars: Seq<Seq<u8>>, n: nat) -> Seq<u8>
    decreases n,
{
    if n == 0 {
        g1_identity()
    } else {
        g1_sum(
            g1_msm_upto(bases, scalars, (n - 1) as nat),
            g1_scaled(bases[n - 1], scalars[n - 1]),
        )
    }
}

/// Multi-scalar multiplication in the first group, over the indices that both
/// sequences have.
pub open spec fn g1_msm(bases: Seq<Seq<u8>>, scalars: Seq<Seq<u8>>) -> Seq<u8> {
    g1_msm_upto(
        bases,
        scalars,
        if bases.len() <= scalars.len() { bases.len() } else { scalars.len() },
    )
}

/// Sum of `scalars[i] * bases[i]` in the second group over the first `n` indices.
pub open spec fn g2_msm_upto(bases: Seq<Seq<u8>>, scalars: Seq<Seq<u8>>, n: nat) -> Seq<u8>
    decreases n,
{
    if n == 0 {
        g2_identity()
    } else {
        g2_sum(
            g2_msm_upto(bases, scalars, (n - 1) as nat),
            g2_scaled(bases[n - 1], scalars[n - 1]),
        )
    }
}

/// Multi-scalar multiplication in the second group, over the indices that both
/// sequences have.
pub open spec fn g2_msm(bases: Seq<Seq<u8>>, scalars: Seq<Seq<u8>>) -> Seq<u8> {
    g2_msm_upto(
        bases,
        scalars,
        if bases.len() <= scalars.len() { bases.len() } else { scalars.len() },
    )
}

/// Whether two byte vectors hold the same bytes.
pub fn bytes_equal(a: &Vec<u8>, b: &Vec<u8>) -> (same: bool)
    ensures
        same == (a@ == b@),
{
    if a.len() != b.len() {
        return false;
    }
    let mut i: usize = 0;
    while i < a.len()
        invariant
            a.len() == b.len(),
            i <= a.len(),
            forall|j: int| 0 <= j < i ==> a@[j] == b@[j],
        decreases a.len() - i,
    {
        if a[i] != b[i] {
            return false;
        }
        i += 1;
    }
    assert(a@ =~= b@);
    true
}

/// A copy of a byte vector.
pub fn bytes_copy(a: &Vec<u8>) -> (copy: Vec<u8>)
    ensures
        copy@ == a@,
{
    let mut out: Vec<u8> = Vec::new();
    let mut i: usize = 0;
    while i < a.len()
        invariant
            i <= a.len(),
            out@ == a@.take(i as int),
        decreases a.len() - i,
    {
        out.push(a[i]);
        assert(a@.take(i + 1) =~= a@.take(i as int).push(a@[i as int]));
        i += 1;
    }
    assert(a@.take(a.len() as int) =~= a@);
    out
}

/// An element of the scalar field.
#[derive(Debug, PartialEq, Eq)]
pub struct Scalar {
    pub(crate) bytes: Vec<u8>,
}

/// A point of the first source group.
#[derive(Debug, PartialEq, Eq)]
pub struct G1 {
    pub(crate) bytes: Vec<u8>,
}

/// A point of the second source group.
#[derive(Debug, PartialEq, Eq)]
pub struct G2 {
    pub(crate) bytes: Vec<u8>,
}

/// A value of the target group.
#[derive(Debug, PartialEq, Eq)]
pub struct Gt {
    pub(crate) bytes: Vec<u8>,
}

impl Clone for Scalar {
    fn clone(&self) -> (out: Self)
        ensures
            out@ == self@,
    {
        self.duplicate()
    }
}

impl View for Scalar {
    type V = Seq<u8>;

    closed spec fn view(&self) -> Seq<u8> {
        self.bytes@
    }
}

impl Clone for G1 {
    fn clone(&self) -> (out: Self)
        ensures
            out@ == self@,
    {
        self.duplicate()
    }
}

impl View for G1 {
    type V = Seq<u8>;

    closed spec fn view(&self) -> Seq<u8> {
        self.bytes@
    }
}

impl Clone for G2 {
    fn clone(&self) -> (out: Self)
        ensures
            out@ == self@,
    {
        self.duplicate()
    }
}

impl View for G2 {
    type V = Seq<u8>;

    closed spec fn view(&self) -> Seq<u8> {
        self.bytes@
    }
}

impl Clone for Gt {
    fn clone(&self) -> (out: Self)
        ensures
            out@ == self@,
    {
        self.duplicate()
    }
}

impl View for Gt {
    type V = Seq<u8>;

    closed spec fn view(&self) -> Seq<u8> {
        self.bytes@
    }
}

/// Decodes a scalar and encodes it again.
///
/// Calls `CanonicalDeserialize::deserialize_compressed` and
/// `CanonicalSerialize::serialize_compressed` on `ark_bls12_381::Fr`. The
/// contract only names the outcome.
#[verifier::external_body]
fn scalar_recode(bytes: &Vec<u8>) -> (out: Option<Vec<u8>>)
    ensures
        out.is_some() == scalar_canonical_form(bytes@).is_some(),
        out.is_some() ==> out.unwrap()@ == scalar_canonical_form(bytes@).unwrap(),
{
    let x = Fr::deserialize_compressed(&bytes[..]).ok()?;
    let mut out = Vec::new();
    x.serialize_compressed(&mut out).ok()?;
    Some(out)
}

/// Decodes a point of the first group and encodes it again.
///
/// Calls `deserialize_compressed` and `serialize_compressed` on
/// `ark_bls12_381::G1Affine`. The contract only names the outcome.
#[verifier::external_body]
fn g1_recode(bytes: &Vec<u8>) -> (out: Option<Vec<u8>>)
    ensures
        out.is_some() == g1_canonical_form(bytes@).is_some(),
        out.is_some() ==> out.unwrap()@ == g1_canonical_form(bytes@).unwrap(),
{
    let p = G1Affine::deserialize_compressed(&bytes[..]).ok()?;
    let mut out = Vec::new();
    p.serialize_compressed(&mut out).ok()?;
    Some(out)
}

/// Decodes a point of the second group and encodes it again.
///
/// Calls `deserialize_compressed` and `serialize_compressed` on
/// `ark_bls12_381::G2Affine`. The contract only names the outcome.
#[verifier::external_body]
fn g2_recode(bytes: &Vec<u8>) -> (out: Option<Vec<u8>>)
    ensures
        out.is_some() == g2_canonical_form(bytes@).is_some(),
        out.is_some() ==> out.unwrap()@ == g2_canonical_form(bytes@).unwrap(),
{
    let p = G2Affine::deserialize_compressed(&bytes[..]).ok()?;
    let mut out = Vec::new();
    p.serialize_compressed(&mut out).ok()?;
    Some(out)
}

impl Scalar {
    #[verifier::type_invariant]
    closed spec fn well_formed(self) -> bool {
        Self::is_encoding(self.bytes@)
    }

    /// Whether `bytes` are the canonical encoding of a scalar.
    pub open spec fn is_encoding(bytes: Seq<u8>) -> bool {
        bytes.len() == SCALAR_BYTES && scalar_canonical_form(bytes) == Some(bytes)
    }

    /// The scalar that `bytes` encode, where they are a canonical encoding.
    pub fn from_bytes(bytes: Vec<u8>) -> (out: Option<Scalar>)
        ensures
            out.is_some() == Self::is_encoding(bytes@),
            out.is_some() ==> out.unwrap()@ == bytes@,
    {
        if bytes.len() != SCALAR_BYTES {
            return None;
        }
        match scalar_recode(&bytes) {
            Some(again) => {
                if bytes_equal(&again, &bytes) {
                    Some(Scalar { bytes })
                } else {
                    None
                }
            },
            None => None,
        }
    }

    /// The canonical encoding.
    pub fn to_bytes(&self) -> (out: Vec<u8>)
        ensures
            out@ == self@,
            Self::is_encoding(self@),
    {
        proof {
            use_type_invariant(self);
        }
        bytes_copy(&self.bytes)
    }

    /// A copy of this scalar.
    pub fn duplicate(&self) -> (out: Scalar)
        ensures
            out@ == self@,
    {
        proof {
            use_type_invariant(self);
        }
        Scalar { bytes: bytes_copy(&self.bytes) }
    }

    /// Whether both are the same scalar.
    pub fn same(&self, other: &Scalar) -> (out: bool)
        ensures
            out == (self@ == other@),
    {
        bytes_equal(&self.bytes, &other.bytes)
    }

    /// Whether this is the scalar zero.
    pub fn is_zero(&self) -> (out: bool)
        ensures
            out == (self@ == scalar_zero()),
    {
        let zero = Self::zero();
        bytes_equal(&self.bytes, &zero.bytes)
    }

    /// The scalar zero.
    ///
    /// Calls `ark_ff::Zero::zero` on `ark_bls12_381::Fr`; the contract claims
    /// that its encoding is thirty-two zero bytes.
    #[verifier::external_body]
    pub(crate) fn zero() -> (out: Scalar)
        ensures
            out@ == scalar_zero(),
    {
        let mut bytes = Vec::new();
        Fr::zero().serialize_compressed(&mut bytes).unwrap();
        Scalar { bytes }
    }

    /// The scalar one.
    ///
    /// Calls `ark_ff::One::one` on `ark_bls12_381::Fr`; the contract claims
    /// that its encoding is the byte one followed by thirty-one zero bytes.
    #[verifier::external_body]
    pub(crate) fn one() -> (out: Scalar)
        ensures
            out@ == scalar_one(),
    {
        let mut bytes = Vec::new();
        Fr::one().serialize_compressed(&mut bytes).unwrap();
        Scalar { bytes }
    }

    /// A scalar drawn from `rng`.
    ///
    /// Calls `ark_ff::UniformRand::rand` on `ark_bls12_381::Fr`. Nothing is
    /// claimed of the outcome.
    #[verifier::external_body]
    pub(crate) fn random(rng: &mut ark_std::rand::rngs::StdRng) -> (out: Scalar) {
        let mut bytes = Vec::new();
        Fr::rand(rng).serialize_compressed(&mut bytes).unwrap();
        Scalar { bytes }
    }

    /// The sum of two scalars.
    ///
    /// Calls `+` of `ark_bls12_381::Fr`. The contract only names the outcome.
    #[verifier::external_body]
    pub(crate) fn plus(&self, other: &Scalar) -> (out: Scalar)
        ensures
            out@ == fr_sum(self@, other@),
    {
        let a = Fr::deserialize_compressed_unchecked(&self.bytes[..]).unwrap();
        let b = Fr::deserialize_compressed_unchecked(&other.bytes[..]).unwrap();
        let mut bytes = Vec::new();
        (a + b).serialize_compressed(&mut bytes).unwrap();
        Scalar { bytes }
    }

    /// The product of two scalars.
    ///
    /// Calls `*` of `ark_bls12_381::Fr`. The contract only names the outcome.
    #[verifier::external_body]
    pub(crate) fn times(&self, other: &Scalar) -> (out: Scalar)
        ensures
            out@ == fr_product(self@, other@),
    {
        let a = Fr::deserialize_compressed_unchecked(&self.bytes[..]).unwrap();
        let b = Fr::deserialize_compressed_unchecked(&other.bytes[..]).unwrap();
        let mut bytes = Vec::new();
        (a * b).serialize_compressed(&mut bytes).unwrap();
        Scalar { bytes }
    }

    /// The multiplicative inverse, which only zero lacks.
    ///
    /// Calls `ark_ff::Field::inverse` on `ark_bls12_381::Fr`, which returns
    /// `None` exactly for zero. The contract names the outcome and states that.
    #[verifier::external_body]
    pub(crate) fn inverse(&self) -> (out: Option<Scalar>)
        ensures
            out.is_none() == (self@ == scalar_zero()),
            out.is_none() == fr_inverse(self@).is_none(),
            out.is_some() ==> out.unwrap()@ == fr_inverse(self@).unwrap(),
    {
        let a = Fr::deserialize_compressed_unchecked(&self.bytes[..]).unwrap();
        let inv = a.inverse()?;
        let mut bytes = Vec::new();
        inv.serialize_compressed(&mut bytes).unwrap();
        Some(Scalar { bytes })
    }
}

impl G1 {
    #[verifier::type_invariant]
    closed spec fn well_formed(self) -> bool {
        Self::is_encoding(self.bytes@)
    }

    /// Whether `bytes` are the canonical encoding of a point of the group.
    pub open spec fn is_encoding(bytes: Seq<u8>) -> bool {
        bytes.len() == G1_BYTES && g1_canonical_form(bytes) == Some(bytes)
    }

    /// The point that `bytes` encode, where they are a canonical encoding.
    pub fn from_bytes(bytes: Vec<u8>) -> (out: Option<G1>)
        ensures
            out.is_some() == Self::is_encoding(bytes@),
            out.is_some() ==> out.unwrap()@ == bytes@,
    {
        if bytes.len() != G1_BYTES {
            return None;
        }
        match g1_recode(&bytes) {
            Some(again) => {
                if bytes_equal(&again, &bytes) {
                    Some(G1 { bytes })
                } else {
                    None
                }
            },
            None => None,
        }
    }

    /// The canonical encoding.
    pub fn to_bytes(&self) -> (out: Vec<u8>)
        ensures
            out@ == self@,
            Self::is_encoding(self@),
    {
        proof {
            use_type_invariant(self);
        }
        bytes_copy(&self.bytes)
    }

    /// A copy of this point.
    pub fn duplicate(&self) -> (out: G1)
        ensures
            out@ == self@,
    {
        proof {
            use_type_invariant(self);
        }
        G1 { bytes: bytes_copy(&self.bytes) }
    }

    /// Whether both are the same point.
    pub fn same(&self, other: &G1) -> (out: bool)
        ensures
            out == (self@ == other@),
    {
        bytes_equal(&self.bytes, &other.bytes)
    }

    /// The neutral point.
    ///
    /// Calls `ark_ec::AffineRepr::zero` on `ark_bls12_381::G1Affine`; the
    /// contract claims that its encoding is the byte `0xc0` followed by zero
    /// bytes.
    #[verifier::external_body]
    pub(crate) fn identity() -> (out: G1)
        ensures
            out@ == g1_identity(),
    {
        let mut bytes = Vec::new();
        G1Affine::zero().serialize_compressed(&mut bytes).unwrap();
        G1 { bytes }
    }

    /// A point drawn from `rng`.
    ///
    /// Calls `ark_ff::UniformRand::rand` on `ark_bls12_381::G1Projective`.
    /// Nothing is claimed of the outcome.
    #[verifier::external_body]
    pub(crate) fn random(rng: &mut ark_std::rand::rngs::StdRng) -> (out: G1) {
        let mut bytes = Vec::new();
        let p = G1Projective::rand(rng).into_affine();
        p.serialize_compressed(&mut bytes).unwrap();
        G1 { bytes }
    }

    /// The sum of two points.
    ///
    /// Calls `+` of `ark_bls12_381::G1Affine`. The contract only names the
    /// outcome.
    #[verifier::external_body]
    pub(crate) fn plus(&self, other: &G1) -> (out: G1)
        ensures
            out@ == g1_sum(self@, other@),
    {
        let a = G1Affine::deserialize_compressed_unchecked(&self.bytes[..]).unwrap();
        let b = G1Affine::deserialize_compressed_unchecked(&other.bytes[..]).unwrap();
        let mut bytes = Vec::new();
        (a + b).into_affine().serialize_compressed(&mut bytes).unwrap();
        G1 { bytes }
    }

    /// The difference of two points.
    ///
    /// Calls `-` of `ark_bls12_381::G1Projective`. The contract only names the
    /// outcome.
    #[verifier::external_body]
    pub(crate) fn minus(&self, other: &G1) -> (out: G1)
        ensures
            out@ == g1_difference(self@, other@),
    {
        let a = G1Affine::deserialize_compressed_unchecked(&self.bytes[..]).unwrap();
        let b = G1Affine::deserialize_compressed_unchecked(&other.bytes[..]).unwrap();
        let mut bytes = Vec::new();
        (a.into_group() - b).into_affine().serialize_compressed(&mut bytes).unwrap();
        G1 { bytes }
    }

    /// This point multiplied by a scalar.
    ///
    /// Calls `*` of `ark_bls12_381::G1Affine` with a scalar. The contract only
    /// names the outcome.
    #[verifier::external_body]
    pub(crate) fn scale(&self, s: &Scalar) -> (out: G1)
        ensures
            out@ == g1_scaled(self@, s@),
    {
        let p = G1Affine::deserialize_compressed_unchecked(&self.bytes[..]).unwrap();
        let k = Fr::deserialize_compressed_unchecked(&s.bytes[..]).unwrap();
        let mut bytes = Vec::new();
        (p * k).into_affine().serialize_compressed(&mut bytes).unwrap();
        G1 { bytes }
    }

    /// The multi-scalar multiplication of `bases` by `scalars`, over the
    /// indices that both have.
    ///
    /// Calls `ark_ec::VariableBaseMSM::msm_unchecked` on
    /// `ark_bls12_381::G1Projective`, documented as the inner product of the
    /// two slices cut to the shorter length. The contract states that sum.
    #[verifier::external_body]
    pub(crate) fn msm(bases: &[G1], scalars: &[Scalar]) -> (out: G1)
        ensures
            out@ == g1_msm(views(bases@), views(scalars@)),
    {
        let b: Vec<G1Affine> = bases
            .iter()
            .map(|p| G1Affine::deserialize_compressed_unchecked(&p.bytes[..]).unwrap())
            .collect();
        let s: Vec<Fr> = scalars
            .iter()
            .map(|x| Fr::deserialize_compressed_unchecked(&x.bytes[..]).unwrap())
            .collect();
        let mut bytes = Vec::new();
        let r = G1Projective::msm_unchecked(&b, &s).into_affine();
        r.serialize_compressed(&mut bytes).unwrap();
        G1 { bytes }
    }

    /// This point multiplied by each of `scalars`.
    ///
    /// Calls `ark_ec::ScalarMul::batch_mul` on `ark_bls12_381::G1Projective`,
    /// which returns one multiple per scalar, in order. The contract states
    /// that.
    #[verifier::external_body]
    pub(crate) fn batch_scale(&self, scalars: &Vec<Scalar>) -> (out: Vec<G1>)
        ensures
            out@.len() == scalars@.len(),
            forall|i: int|
                0 <= i < out@.len() ==> (#[trigger] out@[i])@ == g1_scaled(self@, scalars@[i]@),
    {
        let g = G1Affine::deserialize_compressed_unchecked(&self.bytes[..]).unwrap();
        let s: Vec<Fr> = scalars
            .iter()
            .map(|x| Fr::deserialize_compressed_unchecked(&x.bytes[..]).unwrap())
            .collect();
        g.into_group().batch_mul(&s).iter().map(|p| {
            let mut bytes = Vec::new();
            p.serialize_compressed(&mut bytes).unwrap();
            G1 { bytes }
        }).collect()
    }
}

impl G2 {
    #[verifier::type_invariant]
    closed spec fn well_formed(self) -> bool {
        Self::is_encoding(self.bytes@)
    }

    /// Whether `bytes` are the canonical encoding of a point of the group.
    pub open spec fn is_encoding(bytes: Seq<u8>) -> bool {
        bytes.len() == G2_BYTES && g2_canonical_form(bytes) == Some(bytes)
    }

    /// The point that `bytes` encode, where they are a canonical encoding.
    pub fn from_bytes(bytes: Vec<u8>) -> (out: Option<G2>)
        ensures
            out.is_some() == Self::is_encoding(bytes@),
            out.is_some() ==> out.unwrap()@ == bytes@,
    {
        if bytes.len() != G2_BYTES {
            return None;
        }
        match g2_recode(&bytes) {
            Some(again) => {
                if bytes_equal(&again, &bytes) {
                    Some(G2 { bytes })
                } else {
                    None
                }
            },
            None => None,
        }
    }

    /// The canonical encoding.
    pub fn to_bytes(&self) -> (out: Vec<u8>)
        ensures
            out@ == self@,
            Self::is_encoding(self@),
    {
        proof {
            use_type_invariant(self);
        }
        bytes_copy(&self.bytes)
    }

    /// A copy of this point.
    pub fn duplicate(&self) -> (out: G2)
        ensures
            out@ == self@,
    {
        proof {
            use_type_invariant(self);
        }
        G2 { bytes: bytes_copy(&self.bytes) }
    }

    /// Whether both are the same point.
    pub fn same(&self, other: &G2) -> (out: bool)
        ensures
            out == (self@ == other@),
    {
        bytes_equal(&self.bytes, &other.bytes)
    }

    /// A point drawn from `rng`.
    ///
    /// Calls `ark_ff::UniformRand::rand` on `ark_bls12_381::G2Projective`.
    /// Nothing is claimed of the outcome.
    #[verifier::external_body]
    pub(crate) fn random(rng: &mut ark_std::rand::rngs::StdRng) -> (out: G2) {
        let mut bytes = Vec::new();
        let p = G2Projective::rand(rng).into_affine();
        p.serialize_compressed(&mut bytes).unwrap();
        G2 { bytes }
    }

    /// The sum of two points.
    ///
    /// Calls `+` of `ark_bls12_381::G2Affine`. The contract only names the
    /// outcome.
    #[verifier::external_body]
    pub(crate) fn plus(&self, other: &G2) -> (out: G2)
        ensures
            out@ == g2_sum(self@, other@),
    {
        let a = G2Affine::deserialize_compressed_unchecked(&self.bytes[..]).unwrap();
        let b = G2Affine::deserialize_compressed_unchecked(&other.bytes[..]).unwrap();
        let mut bytes = Vec::new();
        (a + b).into_affine().serialize_compressed(&mut bytes).unwrap();
        G2 { bytes }
    }

    /// This point multiplied by a scalar.
    ///
    /// Calls `*` of `ark_bls12_381::G2Affine` with a scalar. The contract only
    /// names the outcome.
    #[verifier::external_body]
    pub(crate) fn scale(&self, s: &Scalar) -> (out: G2)
        ensures
            out@ == g2_scaled(self@, s@),
    {
        let p = G2Affine::deserialize_compressed_unchecked(&self.bytes[..]).unwrap();
        let k = Fr::deserialize_compressed_unchecked(&s.bytes[..]).unwrap();
        let mut bytes = Vec::new();
        (p * k).into_affine().serialize_compressed(&mut bytes).unwrap();
        G2 { bytes }
    }

    /// The negation of this point.
    ///
    /// Calls `-` of `ark_bls12_381::G2Projective`. The contract only names the
    /// outcome.
    #[verifier::external_body]
    pub(crate) fn negate(&self) -> (out: G2)
        ensures
            out@ == g2_negated(self@),
    {
        let p = G2Affine::deserialize_compressed_unchecked(&self.bytes[..]).unwrap();
        let mut bytes = Vec::new();
        (-p.into_group()).into_affine().serialize_compressed(&mut bytes).unwrap();
        G2 { bytes }
    }

    /// The multi-scalar multiplication of `bases` by `scalars`, over the
    /// indices that both have.
    ///
    /// Calls `ark_ec::VariableBaseMSM::msm_unchecked` on
    /// `ark_bls12_381::G2Projective`, documented as the inner product of the
    /// two slices cut to the shorter length. The contract states that sum.
    #[verifier::external_body]
    pub(crate) fn msm(bases: &[G2], scalars: &[Scalar]) -> (out: G2)
        ensures
            out@ == g2_msm(views(bases@), views(scalars@)),
    {
        let b: Vec<G2Affine> = bases
            .iter()
            .map(|p| G2Affine::deserialize_compressed_unchecked(&p.bytes[..]).unwrap())
            .collect();
        let s: Vec<Fr> = scalars
            .iter()
            .map(|x| Fr::deserialize_compressed_unchecked(&x.bytes[..]).unwrap())
            .collect();
        let mut bytes = Vec::new();
        let r = G2Projective::msm_unchecked(&b, &s).into_affine();
        r.serialize_compressed(&mut bytes).unwrap();
        G2 { bytes }
    }

    /// This point multiplied by each of `scalars`.
    ///
    /// Calls `ark_ec::ScalarMul::batch_mul` on `ark_bls12_381::G2Projective`,
    /// which returns one multiple per scalar, in order. The contract states
    /// that.
    #[verifier::external_body]
    pub(crate) fn batch_scale(&self, scalars: &Vec<Scalar>) -> (out: Vec<G2>)
        ensures
            out@.len() == scalars@.len(),
            forall|i: int|
                0 <= i < out@.len() ==> (#[trigger] out@[i])@ == g2_scaled(self@, scalars@[i]@),
    {
        let g = G2Affine::deserialize_compressed_unchecked(&self.bytes[..]).unwrap();
        let s: Vec<Fr> = scalars
            .iter()
            .map(|x| Fr::deserialize_compressed_unchecked(&x.bytes[..]).unwrap())
            .collect();
        g.into_group().batch_mul(&s).iter().map(|p| {
            let mut bytes = Vec::new();
            p.serialize_compressed(&mut bytes).unwrap();
            G2 { bytes }
        }).collect()
    }
}

impl Gt {
    /// The canonical encoding.
    pub fn to_bytes(&self) -> (out: Vec<u8>)
        ensures
            out@ == self@,
    {
        bytes_copy(&self.bytes)
    }

    /// A copy of this value.
    pub fn duplicate(&self) -> (out: Gt)
        ensures
            out@ == self@,
    {
        Gt { bytes: bytes_copy(&self.bytes) }
    }

    /// Whether both are the same value.
    pub fn same(&self, other: &Gt) -> (out: bool)
        ensures
            out == (self@ == other@),
    {
        bytes_equal(&self.bytes, &other.bytes)
    }

    /// Whether this is the neutral value of the target group.
    pub fn is_identity(&self) -> (out: bool)
        ensures
            out == (self@ == gt_identity()),
    {
        if self.bytes.len() != GT_BYTES {
            return false;
        }
        let mut i: usize = 0;
        while i < GT_BYTES
            invariant
                self.bytes.len() == GT_BYTES,
                i <= GT_BYTES,
                forall|j: int| 0 <= j < i ==> self.bytes@[j] == gt_identity()[j],
            decreases GT_BYTES - i,
        {
            let want: u8 = if i == 0 { 1 } else { 0 };
            if self.bytes[i] != want {
                return false;
            }
            i += 1;
        }
        assert(self.bytes@ =~= gt_identity());
        true
    }

    /// The product of the pairings of `a[i]` with `b[i]`.
    ///
    /// Calls `ark_ec::pairing::Pairing::multi_miller_loop` and then
    /// `final_exponentiation` on `ark_bls12_381::Bls12_381`. The first panics
    /// where the two lengths differ, which `requires` leaves out; the second
    /// has no result for some Miller-loop values. The contract only names the
    /// outcome.
    #[verifier::external_body]
    pub(crate) fn pairing_product(a: &Vec<G1>, b: &Vec<G2>) -> (out: Option<Gt>)
        requires
            a@.len() == b@.len(),
        ensures
            out.is_some() == pairing_product(views(a@), views(b@)).is_some(),
            out.is_some() ==> out.unwrap()@ == pairing_product(views(a@), views(b@)).unwrap(),
    {
        let p: Vec<G1Affine> = a
            .iter()
            .map(|p| G1Affine::deserialize_compressed_unchecked(&p.bytes[..]).unwrap())
            .collect();
        let q: Vec<G2Affine> = b
            .iter()
            .map(|p| G2Affine::deserialize_compressed_unchecked(&p.bytes[..]).unwrap())
            .collect();
        let e = Bls12_381::final_exponentiation(Bls12_381::multi_miller_loop(p, q))?;
        let mut bytes = Vec::new();
        e.serialize_compressed(&mut bytes).unwrap();
        Some(Gt { bytes })
    }
}

/// Copies of the scalars of `v`, in order.
pub fn scalar_copies(v: &Vec<Scalar>) -> (out: Vec<Scalar>)
    ensures
        views(out@) == views(v@),
{
    let mut out: Vec<Scalar> = Vec::new();
    let mut i: usize = 0;
    while i < v.len()
        invariant
            i <= v.len(),
            out@.len() == i,
            forall|j: int| 0 <= j < i ==> out@[j]@ == v@[j]@,
        decreases v.len() - i,
    {
        out.push(v[i].duplicate());
        i += 1;
    }
    assert(views(out@) =~= views(v@));
    out
}

/// Copies of the points of `v`, in order.
pub fn g1_copies(v: &Vec<G1>) -> (out: Vec<G1>)
    ensures
        views(out@) == views(v@),
{
    let mut out: Vec<G1> = Vec::new();
    let mut i: usize = 0;
    while i < v.len()
        invariant
            i <= v.len(),
            out@.len() == i,
            forall|j: int| 0 <= j < i ==> out@[j]@ == v@[j]@,
        decreases v.len() - i,
    {
        out.push(v[i].duplicate());
        i += 1;
    }
    assert(views(out@) =~= views(v@));
    out
}

/// Copies of the points of `v`, in order.
pub fn g2_copies(v: &Vec<G2>) -> (out: Vec<G2>)
    ensures
        views(out@) == views(v@),
{
    let mut out: Vec<G2> = Vec::new();
    let mut i: usize = 0;
    while i < v.len()
        invariant
            i <= v.len(),
            out@.len() == i,
            forall|j: int| 0 <= j < i ==> out@[j]@ == v@[j]@,
        decreases v.len() - i,
    {
        out.push(v[i].duplicate());
        i += 1;
    }
    assert(views(out@) =~= views(v@));
    out
}

} // verus!

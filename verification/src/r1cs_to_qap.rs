//! What the reduction from a constraint system to a quadratic arithmetic
//! program hands to setup and to the prover. The reduction itself is chosen by
//! the caller.

use crate::algebra::{views, Scalar};
use crate::error::SynthesisError;
use vstd::prelude::*;

verus! {

/// A reduction strategy, as far as setup calls it. What a strategy gives
/// depends on what it is asked and on nothing else: the contracts of setup
/// rest on that, and nothing here checks it of a strategy. A strategy that is
/// written outside verified code gives `h_scalars` a body that never runs.
pub trait R1CSToQAP {
    /// What the strategy gives when it is asked for the scalars of the
    /// quotient query: their encodings, or its error.
    spec fn h_scalars(max_power: usize, t: Seq<u8>, zt: Seq<u8>, delta_inverse: Seq<u8>) -> Result<
        Seq<Seq<u8>>,
        SynthesisError,
    >;

    /// The scalars of the quotient query for powers below `max_power`, at the
    /// evaluation point `t` with vanishing-polynomial value `zt`.
    fn h_query_scalars(max_power: usize, t: &Scalar, zt: &Scalar, delta_inverse: &Scalar) -> (out:
        Result<Vec<Scalar>, SynthesisError>)
        ensures
            out.is_ok() == Self::h_scalars(max_power, t@, zt@, delta_inverse@).is_ok(),
            out.is_ok() ==> views(out.unwrap()@) == Self::h_scalars(
                max_power,
                t@,
                zt@,
                delta_inverse@,
            ).unwrap(),
            out.is_err() ==> Self::h_scalars(max_power, t@, zt@, delta_inverse@) == Err::<
                Seq<Seq<u8>>,
                SynthesisError,
            >(out.unwrap_err()),
    ;
}

/// The program of a circuit evaluated at one point.
#[derive(Clone, Debug, PartialEq)]
pub struct QapInstance {
    /// Per wire, the values of the three families of polynomials at `t`.
    pub a: Vec<Scalar>,
    pub b: Vec<Scalar>,
    pub c: Vec<Scalar>,
    /// The evaluation point.
    pub t: Scalar,
    /// The vanishing polynomial at `t`.
    pub zt: Scalar,
    /// Size of the evaluation domain.
    pub m_raw: usize,
    /// Number of instance wires, the constant one among them.
    pub num_instance_variables: usize,
    /// Number of witness wires that are also committed outside the proof.
    pub num_committed_variables: usize,
}

/// The program's witness for one assignment of the circuit.
#[derive(Clone, Debug, PartialEq)]
pub struct QapWitness {
    /// Coefficients of the quotient polynomial.
    pub h: Vec<Scalar>,
    /// Values of the instance wires, the constant one first.
    pub instance_assignment: Vec<Scalar>,
    /// Values of the committed wires.
    pub committed_assignment: Vec<Scalar>,
    /// Values of the private wires.
    pub witness_assignment: Vec<Scalar>,
}

} // verus!

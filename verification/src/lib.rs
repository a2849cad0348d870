//! A pairing-based succinct argument in the style of Groth16 over BLS12-381,
//! with a commit-and-prove link: the prover also shows that some witness values
//! are the values committed in Pedersen commitments that come from outside.
//!
//! - [`algebra`] holds scalars, points and target-group values as canonical
//!   encodings, and the operations on them, which the arkworks crates compute.
//! - [`link`] is the argument for linear subspaces that ties the commitment
//!   inside a proof to the outside commitments.
//! - [`generator`] is the trusted setup, [`prover`] makes proofs and
//!   [`verification`] checks them.
//! - [`r1cs_to_qap`] holds what the reduction from a constraint system hands
//!   to setup and prover.
//! - [`encoding`] and [`formats`] write and read proofs and keys.
//!
//! Contracts speak of encodings: the view of an element is its bytes, and the
//! group and field operations are named functions on such bytes.

use vstd::prelude::*;

pub mod algebra;
pub mod data_structures;
pub mod encoding;
pub mod error;
pub mod formats;
pub mod generator;
pub mod link;
pub mod prover;
pub mod r1cs_to_qap;
pub mod verification;

pub use data_structures::{
    PreparedVerifyingKey, Proof, ProvingKey, ProvingKeyCommon, QueryPair, VerifyingKey,
};
pub use error::SynthesisError;
pub use r1cs_to_qap::{QapInstance, QapWitness, R1CSToQAP};
pub use verification::prepare_verifying_key;

verus! {

/// The argument system, for the reduction strategy `QAP`.
pub struct Groth16<QAP: R1CSToQAP> {
    _p: core::marker::PhantomData<QAP>,
}

} // verus!

//! Opening sets and proof containers of a STARK prover: evaluation of the
//! committed trace and quotient batches at the challenge point, the order in
//! which those evaluations enter the Fiat-Shamir transcript, and their grouping
//! into point-keyed batches for the low-degree opening argument.
use vstd::prelude::*;

pub mod field;
pub mod openings;
pub mod containers;

pub use field::ExtElem;
pub use openings::{FriOpeningBatch, FriOpenings, StarkOpeningSet};
pub use containers::{
    CompressedStarkProof, CompressedStarkProofWithPublicInputs, StarkProof,
    StarkProofWithPublicInputs,
};

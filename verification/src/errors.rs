//! Error taxonomy of the proof lifecycle.
//!
//! Every failure is surfaced as an explicit result. The only outcome that is
//! deliberately a plain `false` rather than an error is the verifier's
//! "cryptographically invalid proof" answer.

use vstd::prelude::*;
use ark_relations::r1cs::SynthesisError;

verus! {

/// Failure to read a textual field-element value: the text is not the
/// decimal representation of an element of `[0, field order)`.
#[derive(Clone, Copy, PartialEq, Eq, Structural, Debug)]
pub enum ParseError {
    NotReducible,
}

/// Failure to decode proof bytes: wrong length, or a decoded point is not
/// on the curve or not in the expected subgroup.
#[derive(Clone, Copy, PartialEq, Eq, Structural, Debug)]
pub enum CodecError {
    Malformed,
}

/// Failure of a verification call before or outside the pairing check.
#[derive(Clone, Copy, PartialEq, Eq, Structural, Debug)]
pub enum VerifyError {
    /// The proof bytes or the public-input vector are structurally invalid:
    /// wrong vector length, unreadable field value, or undecodable proof.
    Malformed,
    /// The backend reported an internal failure during the pairing check.
    Backend,
}

/// Failure to build a proof: the backend's constraint synthesis failed,
/// for example because a witness assignment was missing.
#[derive(Debug)]
pub enum ProofError {
    SynthesisFailed(SynthesisError),
}

} // verus!

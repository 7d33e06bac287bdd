//! A minimal Groth16 proof lifecycle over one arithmetic relation: prove
//! knowledge of private witnesses `a` and `b` with `a + b = c` for a
//! public output `c`, over the BN254 scalar field.
//!
//! The lifecycle is: one-time setup binding key material to the circuit
//! shape, proof construction from a concrete witness assignment, canonical
//! binary and structured serialization of the proof, and verification
//! against a public-input vector. The pairing arithmetic and the Groth16
//! backend are an external primitive library behind `backend`; everything
//! around them is verified.
//!
//! Setup and proving consume a caller-supplied constraint synthesizer —
//! the host wraps a [`circuit::Circuit`] descriptor into the backend's
//! synthesis interface and hands it in — together with the seed of a
//! deterministic randomness stream. The demonstration host re-runs setup
//! from a fixed seed on every call for reproducibility; that is a
//! simplification for demonstration, not sound practice for real key
//! material.

use vstd::prelude::*;

pub mod backend;
pub mod circuit;
pub mod codec;
pub mod decimal;
pub mod errors;
pub mod field;

use ark_bn254::Fr;
use ark_relations::r1cs::ConstraintSynthesizer;

use crate::backend::{decoded_of, decodes, fr_of, groth16_prove, groth16_setup, groth16_verify,
    pairing_verdict, prepare_of, prepare_vk, proof_encoding, proof_wf, seeded_rng, vk_bytes_of,
    vk_to_bytes, PreparedVerifyingKey, Proof, ProvingKey};
use crate::codec::{decode_proof, encode_proof, json_of, structured_to_json, to_structured};
use crate::decimal::{dec_value, valid_field_text};
use crate::errors::{CodecError, ProofError, VerifyError};
use crate::field::parse_public_inputs;

verus! {

/// Setup Stage: produces the key material bound to the circuit shape that
/// `shape` synthesizes, drawing from a deterministic randomness stream
/// seeded with `seed` — the same seed and shape give the same keys. The
/// shape must be shape-only; a failure of the backend's parameter
/// generation is surfaced, never swallowed.
pub fn setup<C: ConstraintSynthesizer<Fr>>(shape: C, seed: u64) -> Result<ProvingKey, ProofError> {
    let mut rng = seeded_rng(seed);
    match groth16_setup(shape, &mut rng) {
        Ok(k) => Ok(k),
        Err(e) => Err(ProofError::SynthesisFailed(e)),
    }
}

/// Proving Stage: builds a proof from the assignment that `assignment`
/// synthesizes under the key material `pk`, drawing blinding randomness
/// from a stream seeded with `seed`. The assignment must satisfy exactly
/// the constraints of the shape `pk` was generated from; a synthesis
/// failure (a missing witness value) and an assignment that does not
/// satisfy its own constraints are surfaced as `SynthesisFailed`.
pub fn prove<C: ConstraintSynthesizer<Fr> + Clone>(pk: &ProvingKey, assignment: C, seed: u64) -> (r:
    Result<Proof, ProofError>)
    ensures
        r is Ok ==> proof_wf(r->Ok_0),
{
    let mut rng = seeded_rng(seed);
    match groth16_prove(pk, assignment, &mut rng) {
        Ok(p) => Ok(p),
        Err(e) => Err(ProofError::SynthesisFailed(e)),
    }
}

/// Verification Stage, first half: the pure, deterministic
/// pairing-precomputation transform of the verifying key held in `pk`;
/// safe to cache per key.
pub fn prepare(pk: &ProvingKey) -> (r: PreparedVerifyingKey)
    ensures
        r == prepare_of(*pk),
{
    prepare_vk(pk)
}

/// The canonical bytes of the verifying key held in `pk`: the form in
/// which key material is compared or shipped. Equal keys give equal
/// bytes on every call.
pub fn verifying_key_bytes(pk: &ProvingKey) -> (r: Vec<u8>)
    ensures
        r@ == vk_bytes_of(*pk),
{
    vk_to_bytes(pk)
}

/// Verification Stage, second half: checks `proof` against the prepared
/// key and the public-input vector. A vector whose length is not the
/// circuit's public-variable count of one is a structural fault, reported
/// as `Malformed` before the cryptographic check ever runs; the pairing
/// check's verdict is the boolean, and an internal backend failure is
/// `Backend`.
pub fn verify(pvk: &PreparedVerifyingKey, proof: &Proof, public_input: &Vec<Fr>) -> (r: Result<
    bool,
    VerifyError,
>)
    ensures
        public_input@.len() != 1 ==> r == Err::<bool, VerifyError>(VerifyError::Malformed),
        public_input@.len() == 1 ==> (pairing_verdict(*pvk, *proof, public_input@) matches Some(b)
            ==> r == Ok::<bool, VerifyError>(b)),
        public_input@.len() == 1 && pairing_verdict(*pvk, *proof, public_input@) is None ==> r
            == Err::<bool, VerifyError>(VerifyError::Backend),
{
    if public_input.len() != 1 {
        return Err(VerifyError::Malformed);
    }
    match groth16_verify(pvk, proof, public_input) {
        Ok(b) => Ok(b),
        Err(_) => Err(VerifyError::Backend),
    }
}

/// Runs setup for the circuit shape that `shape` synthesizes, builds a
/// proof from the assignment that `assignment` synthesizes — both drawing
/// from one randomness stream seeded with `seed` — and returns the proof
/// in its canonical 128-byte binary encoding. A synthesis failure of
/// either stage is surfaced, never swallowed.
pub fn create_proof<C1: ConstraintSynthesizer<Fr>, C2: ConstraintSynthesizer<Fr> + Clone>(
    shape: C1,
    assignment: C2,
    seed: u64,
) -> (r: Result<Vec<u8>, ProofError>)
    ensures
        r is Ok ==> r->Ok_0@.len() == 128,
        r is Ok ==> exists|p: Proof| proof_wf(p) && r->Ok_0@ == proof_encoding(p),
{
    let mut rng = seeded_rng(seed);
    let pk = match groth16_setup(shape, &mut rng) {
        Ok(k) => k,
        Err(e) => {
            return Err(ProofError::SynthesisFailed(e));
        },
    };
    let proof = match groth16_prove(&pk, assignment, &mut rng) {
        Ok(p) => p,
        Err(e) => {
            return Err(ProofError::SynthesisFailed(e));
        },
    };
    let bytes = encode_proof(&proof);
    proof {
        assert(proof_wf(proof) && bytes@ == proof_encoding(proof));
    }
    Ok(bytes)
}

/// Decodes canonical binary proof bytes and renders the proof's structured
/// JSON interchange form: the decoded proof's own coordinates in canonical
/// decimal, its own infinity flags. Succeeds on exactly the byte sequences
/// the proof decoder accepts — every canonical encoding of a valid proof
/// among them — and rejects everything else, in particular any input that
/// is not 128 bytes long.
pub fn create_json_proof(proof_vec: Vec<u8>) -> (r: Result<String, CodecError>)
    ensures
        r is Ok <==> decodes(proof_vec@),
        proof_vec@.len() != 128 ==> r is Err,
        r is Err ==> r == Err::<String, CodecError>(CodecError::Malformed),
        r matches Ok(text) ==> proof_wf(decoded_of(proof_vec@)) && json_of(
            text@,
            decoded_of(proof_vec@),
        ),
        (exists|p: Proof| proof_wf(p) && proof_vec@ == proof_encoding(p)) ==> r is Ok,
{
    let proof = match decode_proof(proof_vec.as_slice()) {
        Ok(p) => p,
        Err(e) => {
            return Err(e);
        },
    };
    let sp = to_structured(&proof);
    let text = structured_to_json(&sp);
    proof {
        assert(crate::codec::structured_matches(sp, proof) && text@ == crate::codec::json_text(
            sp,
        ));
        assert(json_of(text@, proof));
    }
    Ok(text)
}

/// Verifies canonical binary proof bytes against an ordered vector of
/// decimal-text public inputs, regenerating the key material for the shape
/// that `shape` synthesizes from the randomness stream seeded with `seed`.
/// Structural faults — a public-input vector whose length is not the
/// circuit's public-variable count of one, a value that is not a canonical
/// field element, undecodable proof bytes — fail with `Malformed` before
/// the cryptographic check; the pairing check's verdict itself is returned
/// as the boolean, and an internal backend failure as `Backend`.
pub fn verify_zk_proof<C: ConstraintSynthesizer<Fr>>(
    shape: C,
    proof_vec: &[u8],
    public_inputs: &Vec<String>,
    seed: u64,
) -> (r: Result<bool, VerifyError>)
    ensures
        public_inputs@.len() != 1 ==> r == Err::<bool, VerifyError>(VerifyError::Malformed),
        public_inputs@.len() == 1 && !valid_field_text(public_inputs@[0]@) ==> r == Err::<
            bool,
            VerifyError,
        >(VerifyError::Malformed),
        proof_vec@.len() != 128 ==> r is Err,
        public_inputs@.len() == 1 && valid_field_text(public_inputs@[0]@) && !decodes(proof_vec@)
            ==> r == Err::<bool, VerifyError>(VerifyError::Malformed),
        public_inputs@.len() == 1 && valid_field_text(public_inputs@[0]@) && decodes(proof_vec@)
            ==> r != Err::<bool, VerifyError>(VerifyError::Malformed),
        r is Ok ==> public_inputs@.len() == 1 && valid_field_text(public_inputs@[0]@) && decodes(
            proof_vec@,
        ),
        r is Ok ==> proof_wf(decoded_of(proof_vec@)),
        r matches Ok(b) ==> exists|pvk: PreparedVerifyingKey|
            pairing_verdict(pvk, decoded_of(proof_vec@), seq![
                fr_of(dec_value(public_inputs@[0]@)),
            ]) == Some(b),
{
    if public_inputs.len() != 1 {
        return Err(VerifyError::Malformed);
    }
    let inputs = match parse_public_inputs(public_inputs) {
        Ok(v) => v,
        Err(_) => {
            return Err(VerifyError::Malformed);
        },
    };
    let proof = match decode_proof(proof_vec) {
        Ok(p) => p,
        Err(_) => {
            return Err(VerifyError::Malformed);
        },
    };
    let mut rng = seeded_rng(seed);
    let pk = match groth16_setup(shape, &mut rng) {
        Ok(k) => k,
        Err(_) => {
            return Err(VerifyError::Backend);
        },
    };
    let pvk = prepare_vk(&pk);
    proof {
        assert(inputs@ =~= seq![fr_of(dec_value(public_inputs@[0]@))]);
    }
    match groth16_verify(&pvk, &proof, &inputs) {
        Ok(b) => {
            proof {
                assert(pairing_verdict(pvk, proof, inputs@) == Some(b));
            }
            Ok(b)
        },
        Err(_) => Err(VerifyError::Backend),
    }
}

} // verus!

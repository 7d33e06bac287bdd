//! End-to-end proof lifecycle scenarios: setup, proving, codec, verification.

use ark_bn254::{Bn254, Fr};
use ark_ff::bytes::ToBytes;
use ark_ff::One;
use ark_ff::PrimeField;
use ark_relations::r1cs::{
    ConstraintSynthesizer, ConstraintSystemRef, LinearCombination, SynthesisError, Variable,
};
use ark_serialize::CanonicalDeserialize;
use ark_serialize::CanonicalSerialize;

use zk_addition::backend::ConstraintSystemHandle;
use zk_addition::circuit::Circuit;
use zk_addition::codec::{decode_proof, encode_proof};
use zk_addition::errors::{CodecError, VerifyError};

/// Hands a descriptor to the backend's synthesis interface by calling the
/// library's verified `synthesize`.
#[derive(Clone)]
struct Adapter(Circuit);

impl ConstraintSynthesizer<Fr> for Adapter {
    fn generate_constraints(self, cs: ConstraintSystemRef<Fr>) -> Result<(), SynthesisError> {
        if !self.0.is_well_formed() {
            return Err(SynthesisError::AssignmentMissing);
        }
        self.0.synthesize(&mut ConstraintSystemHandle { inner: cs })
    }
}

fn shape() -> Adapter {
    Adapter(Circuit::shape_only())
}

fn demo() -> Adapter {
    Adapter(Circuit::demo_assignment())
}

fn inputs(values: &[&str]) -> Vec<String> {
    values.iter().map(|s| s.to_string()).collect()
}

/// The same relation with one extra (trivially satisfiable) constraint:
/// a different circuit shape.
struct WiderCircuit {
    a: Option<Fr>,
    b: Option<Fr>,
    c: Option<Fr>,
}

impl ConstraintSynthesizer<Fr> for WiderCircuit {
    fn generate_constraints(self, cs: ConstraintSystemRef<Fr>) -> Result<(), SynthesisError> {
        let one = Fr::one();
        let a = cs.new_witness_variable(|| self.a.ok_or(SynthesisError::AssignmentMissing))?;
        let b = cs.new_witness_variable(|| self.b.ok_or(SynthesisError::AssignmentMissing))?;
        let c = cs.new_input_variable(|| self.c.ok_or(SynthesisError::AssignmentMissing))?;
        cs.enforce_constraint(
            LinearCombination(vec![(one, a), (one, b)]),
            LinearCombination(vec![(one, Variable::One)]),
            LinearCombination(vec![(one, c)]),
        )?;
        cs.enforce_constraint(
            LinearCombination(vec![(one, a)]),
            LinearCombination(vec![(one, Variable::One)]),
            LinearCombination(vec![(one, a)]),
        )?;
        Ok(())
    }
}

#[test]
fn demo_proof_is_128_bytes() {
    let bytes = zk_addition::create_proof(shape(), demo(), 0).unwrap();
    assert_eq!(bytes.len(), 128);
}

#[test]
fn demo_proof_verifies_for_six() {
    let bytes = zk_addition::create_proof(shape(), demo(), 0).unwrap();
    let accepted = zk_addition::verify_zk_proof(shape(), &bytes, &inputs(&["6"]), 0).unwrap();
    assert!(accepted);
}

#[test]
fn demo_proof_rejects_other_public_inputs() {
    let bytes = zk_addition::create_proof(shape(), demo(), 0).unwrap();
    let seven = zk_addition::verify_zk_proof(shape(), &bytes, &inputs(&["7"]), 0).unwrap();
    assert!(!seven);
    let five = zk_addition::verify_zk_proof(shape(), &bytes, &inputs(&["5"]), 0).unwrap();
    assert!(!five);
    let zero = zk_addition::verify_zk_proof(shape(), &bytes, &inputs(&["0"]), 0).unwrap();
    assert!(!zero);
}

#[test]
fn wrong_input_vector_length_is_structural_error() {
    let bytes = zk_addition::create_proof(shape(), demo(), 0).unwrap();
    let none = zk_addition::verify_zk_proof(shape(), &bytes, &inputs(&[]), 0);
    assert_eq!(none, Err(VerifyError::Malformed));
    let two = zk_addition::verify_zk_proof(shape(), &bytes, &inputs(&["6", "6"]), 0);
    assert_eq!(two, Err(VerifyError::Malformed));
}

#[test]
fn unreadable_public_input_is_structural_error() {
    let bytes = zk_addition::create_proof(shape(), demo(), 0).unwrap();
    let word = zk_addition::verify_zk_proof(shape(), &bytes, &inputs(&["six"]), 0);
    assert_eq!(word, Err(VerifyError::Malformed));
    let padded = zk_addition::verify_zk_proof(shape(), &bytes, &inputs(&["06"]), 0);
    assert_eq!(padded, Err(VerifyError::Malformed));
}

#[test]
fn truncated_proof_bytes_fail_with_decode_error() {
    let bytes = zk_addition::create_proof(shape(), demo(), 0).unwrap();
    let truncated = bytes[..64].to_vec();
    let verdict = zk_addition::verify_zk_proof(shape(), &truncated, &inputs(&["6"]), 0);
    assert_eq!(verdict, Err(VerifyError::Malformed));
    let json = zk_addition::create_json_proof(truncated);
    assert!(matches!(json, Err(CodecError::Malformed)));
    let empty = zk_addition::verify_zk_proof(shape(), &[], &inputs(&["6"]), 0);
    assert_eq!(empty, Err(VerifyError::Malformed));
}

#[test]
fn garbage_proof_bytes_fail_with_decode_error() {
    let garbage = vec![0xffu8; 128];
    let verdict = zk_addition::verify_zk_proof(shape(), &garbage, &inputs(&["6"]), 0);
    assert_eq!(verdict, Err(VerifyError::Malformed));
}

#[test]
fn overlong_proof_bytes_fail_with_decode_error() {
    let mut bytes = zk_addition::create_proof(shape(), demo(), 0).unwrap();
    bytes.push(0);
    let verdict = zk_addition::verify_zk_proof(shape(), &bytes, &inputs(&["6"]), 0);
    assert_eq!(verdict, Err(VerifyError::Malformed));
    assert!(matches!(zk_addition::create_json_proof(bytes), Err(CodecError::Malformed)));
}

#[test]
fn unsatisfying_assignment_fails_proving_without_panic() {
    let pk = zk_addition::setup(shape(), 0).unwrap();
    let bad = Adapter(Circuit::assigned(Fr::from(1u64), Fr::from(1u64), Fr::from(6u64)));
    let outcome = zk_addition::prove(&pk, bad, 0);
    assert!(outcome.is_err());
}

#[test]
fn json_output_is_deterministic() {
    let bytes = zk_addition::create_proof(shape(), demo(), 0).unwrap();
    let first = zk_addition::create_json_proof(bytes.clone()).unwrap();
    let second = zk_addition::create_json_proof(bytes).unwrap();
    assert_eq!(first, second);
}

#[test]
fn binary_codec_round_trips() {
    let bytes = zk_addition::create_proof(shape(), demo(), 0).unwrap();
    let proof = decode_proof(&bytes).unwrap();
    let again = encode_proof(&proof);
    assert_eq!(bytes, again);
    let reference = ark_groth16::Proof::<Bn254>::deserialize(&bytes[..]).unwrap();
    let mut reference_bytes = Vec::new();
    reference.serialize(&mut reference_bytes).unwrap();
    assert_eq!(again, reference_bytes);
}

#[test]
fn keys_from_wider_shape_never_accept_demo_proof() {
    let bytes = zk_addition::create_proof(shape(), demo(), 0).unwrap();
    let wider = WiderCircuit { a: None, b: None, c: None };
    for value in ["6", "7", "0", "1"] {
        let verdict = zk_addition::verify_zk_proof(wider_copy(&wider), &bytes, &inputs(&[value]), 0);
        match verdict {
            Ok(accepted) => assert!(!accepted),
            Err(_) => {},
        }
    }
}

fn wider_copy(w: &WiderCircuit) -> WiderCircuit {
    WiderCircuit { a: w.a, b: w.b, c: w.c }
}

#[test]
fn setup_keys_are_identical_for_same_seed_and_shape() {
    let k1 = zk_addition::setup(shape(), 0).unwrap();
    let k2 = zk_addition::setup(shape(), 0).unwrap();
    let vk1 = zk_addition::verifying_key_bytes(&k1);
    let vk2 = zk_addition::verifying_key_bytes(&k2);
    assert_eq!(vk1, vk2);
    let k3 = zk_addition::setup(shape(), 1).unwrap();
    assert_ne!(vk1, zk_addition::verifying_key_bytes(&k3));
}

#[test]
fn staged_lifecycle_matches_combined_entry_points() {
    let pk = zk_addition::setup(shape(), 0).unwrap();
    let proof = zk_addition::prove(&pk, demo(), 7).unwrap();
    let pvk = zk_addition::prepare(&pk);
    let public_input = Circuit::demo_assignment().public_inputs().unwrap();
    let accepted = zk_addition::verify(&pvk, &proof, &public_input).unwrap();
    assert!(accepted);
    let wrong = vec![Fr::from(9u64)];
    let rejected = zk_addition::verify(&pvk, &proof, &wrong).unwrap();
    assert!(!rejected);
    let too_long = vec![Fr::from(6u64), Fr::from(6u64)];
    assert_eq!(zk_addition::verify(&pvk, &proof, &too_long), Err(VerifyError::Malformed));
}

#[test]
fn json_proof_exposes_curve_protocol_and_coordinates() {
    let bytes = zk_addition::create_proof(shape(), demo(), 0).unwrap();
    let reference = ark_groth16::Proof::<Bn254>::deserialize(&bytes[..]).unwrap();
    let json = zk_addition::create_json_proof(bytes).unwrap();
    let v: serde_json::Value = serde_json::from_str(&json).unwrap();
    assert_eq!(v["protocol"].as_str().unwrap(), "groth16");
    assert_eq!(v["curve"].as_str().unwrap(), "bn254");
    assert_eq!(v["a"]["infinity"].as_bool().unwrap(), false);
    assert_eq!(v["b"]["infinity"].as_bool().unwrap(), false);
    assert_eq!(v["c"]["infinity"].as_bool().unwrap(), false);
    let mut ax = Vec::new();
    reference.a.x.into_repr().write(&mut ax).unwrap();
    let expected_ax = num_bigint::BigUint::from_bytes_le(&ax).to_string();
    assert_eq!(v["a"]["x"].as_str().unwrap(), expected_ax);
    let mut bx0 = Vec::new();
    reference.b.x.c0.into_repr().write(&mut bx0).unwrap();
    let expected_bx0 = num_bigint::BigUint::from_bytes_le(&bx0).to_string();
    assert_eq!(v["b"]["x"]["c0"].as_str().unwrap(), expected_bx0);
    assert!(v["b"]["y"]["c1"].as_str().unwrap().chars().all(|c| c.is_ascii_digit()));
    assert!(v["c"]["y"].as_str().unwrap().chars().all(|c| c.is_ascii_digit()));
}

#[test]
fn missing_witness_fails_proving() {
    let pk = zk_addition::setup(shape(), 0).unwrap();
    let partial = Adapter(Circuit { a: Some(Fr::from(4u64)), b: None, c: Some(Fr::from(6u64)) });
    let outcome = zk_addition::prove(&pk, partial, 0);
    assert!(outcome.is_err());
}

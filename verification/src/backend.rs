//! Trusted boundary to the cryptographic backend.
//!
//! The pairing arithmetic, the Groth16 prover/verifier and the canonical
//! point serialization are an external, already-correct primitive library.
//! This module declares the backend's types and wraps the calls the
//! lifecycle makes into them; everything else in the crate is verified
//! against the contracts stated here.
//!
//! The backend's proof, key and constraint-system types are generic over
//! traits of the backend, which the verifier will not take in a type
//! declaration; each is therefore held opaquely, at its one instantiation
//! used here, inside a struct of this crate whose contents the verifier
//! never sees. Only the constraint-system handle exposes its wrapped
//! value, so that the host's synthesis adapter can hand the backend's
//! handle to `synthesize`; proofs and keys cannot be fabricated from
//! outside the crate.

use vstd::prelude::*;

use ark_bn254::{Bn254, Fr};
use ark_ff::One;
use ark_ff::PrimeField;
use ark_ff::bytes::ToBytes;
use ark_relations::r1cs::{ConstraintSynthesizer, LinearCombination, SynthesisError, Variable};
use ark_serialize::{CanonicalDeserialize, CanonicalSerialize};
use rand::SeedableRng;

use crate::decimal::{dec_value, is_digits, le_value, no_leading_zero, valid_field_text};
use crate::errors::CodecError;

verus! {

// ---------------------------------------------------------------------------
// Backend types. Every one of them is opaque: the lifecycle never looks
// inside, it only passes their values between backend calls.
// ---------------------------------------------------------------------------

/// An element of a 256-bit prime field (the BN254 scalar field `Fr` is the
/// instance used here).
#[verifier::external_type_specification]
#[verifier::external_body]
#[verifier::reject_recursive_types(P)]
pub struct ExFp256<P>(ark_ff::Fp256<P>);

/// The marker type of the BN254 scalar field.
#[verifier::external_type_specification]
#[verifier::external_body]
pub struct ExFrParameters(ark_bn254::FrParameters);

/// A variable of the backend's constraint system.
#[verifier::external_type_specification]
#[verifier::external_body]
pub struct ExVariable(ark_relations::r1cs::Variable);

/// The backend's constraint-synthesis error.
#[verifier::external_type_specification]
#[verifier::external_body]
pub struct ExSynthesisError(ark_relations::r1cs::SynthesisError);

/// A zero-knowledge argument for the circuit: three curve points of the
/// backend, held opaquely.
#[verifier::external_body]
pub struct Proof {
    pub(crate) inner: ark_groth16::Proof<Bn254>,
}

/// Groth16 proving-key material bound to one circuit shape; it also
/// contains the verifying key.
#[verifier::external_body]
pub struct ProvingKey {
    pub(crate) inner: ark_groth16::ProvingKey<Bn254>,
}

/// A verifying key transformed into its pairing-precomputed form.
#[verifier::external_body]
pub struct PreparedVerifyingKey {
    pub(crate) inner: ark_groth16::PreparedVerifyingKey<Bn254>,
}

/// A handle to the backend's constraint system under construction.
#[verifier::external_body]
pub struct ConstraintSystemHandle {
    pub inner: ark_relations::r1cs::ConstraintSystemRef<Fr>,
}

/// A deterministic randomness stream for setup and proving.
#[verifier::external_body]
pub struct RngHandle {
    pub(crate) inner: rand::rngs::StdRng,
}

/// Relies on `StdRng::seed_from_u64`: a deterministic randomness stream
/// reproducible from its seed.
#[verifier::external_body]
pub(crate) fn seeded_rng(seed: u64) -> RngHandle {
    RngHandle { inner: rand::rngs::StdRng::seed_from_u64(seed) }
}

// ---------------------------------------------------------------------------
// Named results of backend calls.
// ---------------------------------------------------------------------------

/// The canonical compressed serialization of a proof: 32 bytes for `a`,
/// 64 for `b`, 32 for `c`, each point as its x-coordinate with the
/// y-sign and point-at-infinity flags packed into the two spare high bits.
pub uninterp spec fn proof_encoding(p: Proof) -> Seq<u8>;

/// Backend validity of a proof value: each of its three points is either
/// the canonical point at infinity or lies on its curve and in the
/// prime-order subgroup. The prover only produces such proofs, and the
/// deserializer only accepts encodings of such proofs.
pub uninterp spec fn proof_wf(p: Proof) -> bool;

/// Whether the canonical deserializer accepts `bytes` as a proof: a
/// function of the bytes alone.
pub uninterp spec fn decodes(bytes: Seq<u8>) -> bool;

/// The scalar-field element that represents the natural number `n`
/// (reduced modulo the field order). Both ways of building a field element
/// — embedding a small integer and reading decimal text — land on this one
/// embedding, so it carries a single name.
pub uninterp spec fn fr_of(n: nat) -> Fr;

/// The pairing check's verdict on a proof, a prepared key and a
/// public-input vector: a function of its three arguments alone.
/// `Some(b)` is the backend's boolean verdict; `None` is the backend's own
/// failure of the check (a key/input-length mismatch, or a degenerate
/// pairing value).
pub uninterp spec fn pairing_verdict(
    pvk: PreparedVerifyingKey,
    proof: Proof,
    inputs: Seq<Fr>,
) -> Option<bool>;

/// The pairing-precomputed form of the verifying key held in a proving
/// key: a deterministic function of the key material alone.
pub uninterp spec fn prepare_of(pk: ProvingKey) -> PreparedVerifyingKey;

/// The plain reading of the proof's `a` point: the `x` and `y` coordinates
/// as canonical integers in 32 little-endian bytes each, and the
/// point-at-infinity flag — a function of the proof alone.
pub uninterp spec fn a_plain_of(p: Proof) -> (Seq<u8>, Seq<u8>, bool);

/// The plain reading of the proof's `b` point: the four extension-field
/// components `x.c0, x.c1, y.c0, y.c1` as canonical integers in 32
/// little-endian bytes each, and the point-at-infinity flag.
pub uninterp spec fn b_plain_of(p: Proof) -> (Seq<u8>, Seq<u8>, Seq<u8>, Seq<u8>, bool);

/// The plain reading of the proof's `c` point, as for the `a` point.
pub uninterp spec fn c_plain_of(p: Proof) -> (Seq<u8>, Seq<u8>, bool);

/// The proof value the canonical deserializer yields on bytes it accepts:
/// a function of the bytes alone.
pub uninterp spec fn decoded_of(bytes: Seq<u8>) -> Proof;

/// The canonical serialization of the verifying key held in a proving
/// key: a function of the key material alone.
pub uninterp spec fn vk_bytes_of(pk: ProvingKey) -> Seq<u8>;

/// The witness variables the constraint system behind the handle holds,
/// in allocation order.
pub uninterp spec fn cs_witness_vars(cs: ConstraintSystemHandle) -> Seq<Variable>;

/// The public-input variables the constraint system behind the handle
/// holds, in allocation order.
pub uninterp spec fn cs_input_vars(cs: ConstraintSystemHandle) -> Seq<Variable>;

/// The constraints the constraint system behind the handle holds, in
/// registration order. Each entry `(a, c)` stands for the rank-1
/// constraint `(Σ a) * 1 = (Σ c)` — left side the sum of the variables of
/// `a` with coefficient one, right side the constant one, output the sum
/// of the variables of `c` — the only form the wrapper below registers.
pub uninterp spec fn cs_constraints(cs: ConstraintSystemHandle) -> Seq<
    (Seq<Variable>, Seq<Variable>),
>;

// ---------------------------------------------------------------------------
// Field-element construction.
// ---------------------------------------------------------------------------

/// Relies on the field's `From<u64>`: embeds a small integer into the
/// scalar field, reducing modulo the field order.
#[verifier::external_body]
pub(crate) fn fr_from_u64(n: u64) -> (r: Fr)
    ensures
        r == fr_of(n as nat),
{
    Fr::from(n)
}

/// Relies on the field's `FromStr`: reads canonical decimal text as the
/// scalar-field element of its value. The caller has already checked the
/// text, so the parse cannot fail: `FromStr` accepts exactly nonempty
/// digit strings without a superfluous leading zero, and reduces modulo
/// the field order.
#[verifier::external_body]
pub(crate) fn fr_from_decimal(s: &str) -> (r: Fr)
    requires
        valid_field_text(s@),
    ensures
        r == fr_of(dec_value(s@)),
{
    s.parse::<Fr>().unwrap()
}

// ---------------------------------------------------------------------------
// Constraint-system calls.
// ---------------------------------------------------------------------------

/// Relies on `ConstraintSystemRef::new_witness_variable`: allocates the
/// next private witness variable. In setup mode the value is not
/// consulted; in proving mode a missing value makes the call fail. On
/// success the witness sequence gains exactly the returned variable, at
/// the end; the inputs and the constraints are untouched. A failed call
/// leaves the handle in no promised state.
#[verifier::external_body]
pub(crate) fn alloc_witness(cs: &mut ConstraintSystemHandle, v: Option<Fr>) -> (r: Result<
    Variable,
    SynthesisError,
>)
    ensures
        r matches Ok(var) ==> cs_witness_vars(*final(cs)) == cs_witness_vars(*old(cs)).push(var),
        r is Ok ==> cs_input_vars(*final(cs)) == cs_input_vars(*old(cs)),
        r is Ok ==> cs_constraints(*final(cs)) == cs_constraints(*old(cs)),
{
    cs.inner.new_witness_variable(|| v.ok_or(SynthesisError::AssignmentMissing))
}

/// Relies on `ConstraintSystemRef::new_input_variable`: allocates the
/// next public input variable. In setup mode the value is not consulted;
/// in proving mode a missing value makes the call fail. On success the
/// input sequence gains exactly the returned variable, at the end; the
/// witnesses and the constraints are untouched.
#[verifier::external_body]
pub(crate) fn alloc_input(cs: &mut ConstraintSystemHandle, v: Option<Fr>) -> (r: Result<
    Variable,
    SynthesisError,
>)
    ensures
        r matches Ok(var) ==> cs_input_vars(*final(cs)) == cs_input_vars(*old(cs)).push(var),
        r is Ok ==> cs_witness_vars(*final(cs)) == cs_witness_vars(*old(cs)),
        r is Ok ==> cs_constraints(*final(cs)) == cs_constraints(*old(cs)),
{
    cs.inner.new_input_variable(|| v.ok_or(SynthesisError::AssignmentMissing))
}

/// Relies on `ConstraintSystemRef::enforce_constraint`: registers the
/// rank-1 constraint `(Σ a) * 1 = (Σ c)` — left side the sum of the
/// variables of `a` with coefficient one, right side the backend's
/// constant-one variable, output the sum of the variables of `c`. On
/// success the constraint sequence gains exactly that one entry, at the
/// end; the variables are untouched.
#[verifier::external_body]
pub(crate) fn enforce_sum_constraint(
    cs: &mut ConstraintSystemHandle,
    a: Vec<Variable>,
    c: Vec<Variable>,
) -> (r: Result<(), SynthesisError>)
    ensures
        r is Ok ==> cs_constraints(*final(cs)) == cs_constraints(*old(cs)).push((a@, c@)),
        r is Ok ==> cs_witness_vars(*final(cs)) == cs_witness_vars(*old(cs)),
        r is Ok ==> cs_input_vars(*final(cs)) == cs_input_vars(*old(cs)),
{
    let one = Fr::one();
    cs.inner.enforce_constraint(
        LinearCombination(a.into_iter().map(|v| (one, v)).collect()),
        LinearCombination(vec![(one, Variable::One)]),
        LinearCombination(c.into_iter().map(|v| (one, v)).collect()),
    )
}

// ---------------------------------------------------------------------------
// Setup, proving, verification.
// ---------------------------------------------------------------------------

/// Relies on `ark_groth16::generate_random_parameters`: produces key
/// material bound to the shape of `circuit`, drawing from `rng`; the same
/// again for the same stream position and shape.
#[verifier::external_body]
pub(crate) fn groth16_setup<C: ConstraintSynthesizer<Fr>>(
    circuit: C,
    rng: &mut RngHandle,
) -> Result<ProvingKey, SynthesisError> {
    ark_groth16::generate_random_parameters::<Bn254, C, _>(circuit, &mut rng.inner)
        .map(|inner| ProvingKey { inner })
}

/// Relies on `ark_groth16::prepare_verifying_key`: the deterministic
/// pairing-precomputation transform of the verifying key held inside the
/// proving key.
#[verifier::external_body]
pub(crate) fn prepare_vk(pk: &ProvingKey) -> (r: PreparedVerifyingKey)
    ensures
        r == prepare_of(*pk),
{
    PreparedVerifyingKey { inner: ark_groth16::prepare_verifying_key(&pk.inner.vk) }
}

/// Relies on `CanonicalSerialize::serialize` for the verifying key held
/// inside the proving key: its canonical bytes, a function of the key
/// material alone. Writing into a byte vector cannot fail.
#[verifier::external_body]
pub(crate) fn vk_to_bytes(pk: &ProvingKey) -> (r: Vec<u8>)
    ensures
        r@ == vk_bytes_of(*pk),
{
    let mut out = Vec::new();
    pk.inner.vk.serialize(&mut out).unwrap();
    out
}

/// Relies on `ark_groth16::create_random_proof`: builds a proof from the
/// assignment that `circuit` synthesizes, drawing blinding randomness from
/// `rng`. A proof the prover returns is made of subgroup points. In builds
/// with debug assertions the prover asserts that the assignment satisfies
/// the constraints; the body therefore first replays the synthesis on a
/// clone — under the synthesis contract a synthesizer drives the same
/// constraints on every run — and turns an unsatisfied assignment into
/// `Err(Unsatisfiable)` instead of reaching that assertion.
#[verifier::external_body]
pub(crate) fn groth16_prove<C: ConstraintSynthesizer<Fr> + Clone>(
    pk: &ProvingKey,
    circuit: C,
    rng: &mut RngHandle,
) -> (r: Result<Proof, SynthesisError>)
    ensures
        r is Ok ==> proof_wf(r->Ok_0),
{
    let check = ark_relations::r1cs::ConstraintSystem::<Fr>::new_ref();
    circuit.clone().generate_constraints(check.clone())?;
    if !check.is_satisfied()? {
        return Err(SynthesisError::Unsatisfiable);
    }
    ark_groth16::create_random_proof(circuit, &pk.inner, &mut rng.inner).map(
        |inner| Proof { inner },
    )
}

/// Relies on `ark_groth16::verify_proof`: the pairing check of a proof
/// against a prepared verifying key and a public-input vector — a pure
/// function of the three, returned as the named verdict. An error of the
/// check itself (a key/input-length mismatch, a degenerate pairing value)
/// is the verdict's `None` case.
#[verifier::external_body]
pub(crate) fn groth16_verify(
    pvk: &PreparedVerifyingKey,
    proof: &Proof,
    inputs: &Vec<Fr>,
) -> (r: Result<bool, SynthesisError>)
    ensures
        r matches Ok(b) ==> pairing_verdict(*pvk, *proof, inputs@) == Some(b),
        r is Err ==> pairing_verdict(*pvk, *proof, inputs@) is None,
{
    ark_groth16::verify_proof(&pvk.inner, &proof.inner, inputs.as_slice())
}

// ---------------------------------------------------------------------------
// Canonical binary serialization.
// ---------------------------------------------------------------------------

/// Relies on `CanonicalSerialize::serialize` for the proof: writes the
/// canonical 128-byte compressed encoding. Writing into a byte vector
/// cannot fail.
#[verifier::external_body]
pub(crate) fn proof_to_bytes(p: &Proof) -> (r: Vec<u8>)
    ensures
        r@ == proof_encoding(*p),
        r@.len() == 128,
{
    let mut out = Vec::new();
    p.inner.serialize(&mut out).unwrap();
    out
}

/// Holds when decoding `bytes` gave `r`: whenever `bytes` is the canonical
/// encoding of a backend-valid proof, `r` is exactly that proof.
pub open spec fn decoding_of(bytes: Seq<u8>, r: Result<Proof, CodecError>) -> bool {
    forall|p: Proof| proof_wf(p) && bytes == proof_encoding(p) ==> r == Ok::<Proof, CodecError>(p)
}

/// Relies on `CanonicalDeserialize::deserialize` for the proof, behind a
/// guard for the encoding's documented fixed size: input that is not
/// exactly 128 bytes is rejected before the parse, as is any x-coordinate
/// outside the base field and any point off the curve or outside the
/// subgroup. Every canonical encoding of a valid proof decodes to exactly
/// that proof; a few non-canonical 128-byte texts also decode (the
/// deserializer ignores the x bytes under the infinity flag).
#[verifier::external_body]
pub(crate) fn proof_from_bytes(bytes: &[u8]) -> (r: Result<Proof, CodecError>)
    ensures
        decoding_of(bytes@, r),
        r is Ok <==> decodes(bytes@),
        r matches Ok(p) ==> p == decoded_of(bytes@),
        r is Ok ==> proof_wf(r->Ok_0),
        bytes@.len() != 128 ==> r is Err,
        r matches Err(e) ==> e == CodecError::Malformed,
{
    if bytes.len() != 128 {
        return Err(CodecError::Malformed);
    }
    ark_groth16::Proof::<Bn254>::deserialize(bytes)
        .map(|inner| Proof { inner })
        .map_err(|_| CodecError::Malformed)
}

// ---------------------------------------------------------------------------
// Reading a proof's coordinates as plain values.
// ---------------------------------------------------------------------------

/// Relies on `PrimeField::into_repr` and `ToBytes::write`: the coordinates
/// of the proof's `a` point, a point of the first curve group, as canonical
/// (reduced) integers in 32 little-endian bytes each, with its
/// point-at-infinity flag.
#[verifier::external_body]
pub(crate) fn proof_a_plain(p: &Proof) -> (r: (Vec<u8>, Vec<u8>, bool))
    ensures
        (r.0@, r.1@, r.2) == a_plain_of(*p),
        r.0@.len() == 32,
        r.1@.len() == 32,
{
    let mut x = Vec::new();
    p.inner.a.x.into_repr().write(&mut x).unwrap();
    let mut y = Vec::new();
    p.inner.a.y.into_repr().write(&mut y).unwrap();
    (x, y, p.inner.a.infinity)
}

/// Relies on `PrimeField::into_repr` and `ToBytes::write`: the coordinates
/// of the proof's `c` point, as for the `a` point.
#[verifier::external_body]
pub(crate) fn proof_c_plain(p: &Proof) -> (r: (Vec<u8>, Vec<u8>, bool))
    ensures
        (r.0@, r.1@, r.2) == c_plain_of(*p),
        r.0@.len() == 32,
        r.1@.len() == 32,
{
    let mut x = Vec::new();
    p.inner.c.x.into_repr().write(&mut x).unwrap();
    let mut y = Vec::new();
    p.inner.c.y.into_repr().write(&mut y).unwrap();
    (x, y, p.inner.c.infinity)
}

/// Relies on `PrimeField::into_repr` and `ToBytes::write`: the coordinates
/// of the proof's `b` point, a point of the second curve group whose
/// coordinates are elements of a quadratic extension field with components
/// `c0` and `c1`, as canonical integers in 32 little-endian bytes each,
/// with the point-at-infinity flag; order `x.c0, x.c1, y.c0, y.c1`.
#[verifier::external_body]
pub(crate) fn proof_b_plain(p: &Proof) -> (r: (Vec<u8>, Vec<u8>, Vec<u8>, Vec<u8>, bool))
    ensures
        (r.0@, r.1@, r.2@, r.3@, r.4) == b_plain_of(*p),
        r.0@.len() == 32,
        r.1@.len() == 32,
        r.2@.len() == 32,
        r.3@.len() == 32,
{
    let mut xc0 = Vec::new();
    p.inner.b.x.c0.into_repr().write(&mut xc0).unwrap();
    let mut xc1 = Vec::new();
    p.inner.b.x.c1.into_repr().write(&mut xc1).unwrap();
    let mut yc0 = Vec::new();
    p.inner.b.y.c0.into_repr().write(&mut yc0).unwrap();
    let mut yc1 = Vec::new();
    p.inner.b.y.c1.into_repr().write(&mut yc1).unwrap();
    (xc0, xc1, yc0, yc1, p.inner.b.infinity)
}

/// Relies on `num_bigint::BigUint`: reads little-endian bytes as a natural
/// number and prints it in canonical decimal form, digits only and without
/// a superfluous leading zero.
#[verifier::external_body]
pub(crate) fn le_bytes_to_decimal(b: &Vec<u8>) -> (r: String)
    ensures
        is_digits(r@),
        no_leading_zero(r@),
        dec_value(r@) == le_value(b@),
{
    num_bigint::BigUint::from_bytes_le(b.as_slice()).to_string()
}

} // verus!

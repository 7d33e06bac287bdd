//! Proof codec: the canonical binary encoding and the structured
//! interchange encoding.
//!
//! The binary side round-trips losslessly: decoding the canonical bytes of
//! a proof yields that proof back. The structured side decomposes the three
//! curve points into decimal-text coordinates with infinity flags and wraps
//! them, with the curve and protocol identifiers, into one JSON object
//! whose exact text is specified here character by character.

use vstd::prelude::*;

use crate::backend::{
    a_plain_of, b_plain_of, c_plain_of, decoded_of, decodes, decoding_of, le_bytes_to_decimal,
    proof_a_plain, proof_b_plain, proof_c_plain, proof_encoding, proof_from_bytes, proof_to_bytes,
    proof_wf, Proof,
};
use crate::decimal::{dec_value, is_digits, le_value, no_leading_zero};
use crate::errors::CodecError;

verus! {

/// Coordinates of a point of the first curve group in canonical decimal
/// text, with its point-at-infinity flag.
pub struct G1Coordinates {
    pub x: String,
    pub y: String,
    pub infinity: bool,
}

impl G1Coordinates {
    /// Both coordinates are canonical decimal text.
    pub open spec fn wf(self) -> bool {
        is_digits(self.x@) && no_leading_zero(self.x@) && is_digits(self.y@) && no_leading_zero(
            self.y@,
        )
    }
}

/// Coordinates of a point of the second curve group, each coordinate an
/// element of a quadratic extension field with components `c0` and `c1`,
/// in canonical decimal text, with the point-at-infinity flag.
pub struct G2Coordinates {
    pub x_c0: String,
    pub x_c1: String,
    pub y_c0: String,
    pub y_c1: String,
    pub infinity: bool,
}

impl G2Coordinates {
    /// All four components are canonical decimal text.
    pub open spec fn wf(self) -> bool {
        is_digits(self.x_c0@) && no_leading_zero(self.x_c0@) && is_digits(self.x_c1@)
            && no_leading_zero(self.x_c1@) && is_digits(self.y_c0@) && no_leading_zero(self.y_c0@)
            && is_digits(self.y_c1@) && no_leading_zero(self.y_c1@)
    }
}

/// A proof decomposed for interchange with non-native verifiers: the three
/// group elements `a`, `b`, `c` as plain coordinate text.
pub struct StructuredProof {
    pub a: G1Coordinates,
    pub b: G2Coordinates,
    pub c: G1Coordinates,
}

impl StructuredProof {
    /// Every coordinate is canonical decimal text.
    pub open spec fn wf(self) -> bool {
        self.a.wf() && self.b.wf() && self.c.wf()
    }
}

/// JSON text of a boolean.
pub open spec fn bool_text(b: bool) -> Seq<char> {
    if b {
        "true"@
    } else {
        "false"@
    }
}

/// The JSON interchange text of a structured proof: one object holding
/// `a`, `b` and `c` with their `infinity` flags and decimal-text
/// coordinates (`b`'s coordinates nested as `c0`/`c1`), then the `curve`
/// and `protocol` identifiers; keys in sorted order, no spacing.
pub open spec fn json_text(sp: StructuredProof) -> Seq<char> {
    "{\"a\":{\"infinity\":"@ + bool_text(sp.a.infinity) + ",\"x\":\""@ + sp.a.x@ + "\",\"y\":\""@
        + sp.a.y@ + "\"},\"b\":{\"infinity\":"@ + bool_text(sp.b.infinity) + ",\"x\":{\"c0\":\""@
        + sp.b.x_c0@ + "\",\"c1\":\""@ + sp.b.x_c1@ + "\"},\"y\":{\"c0\":\""@ + sp.b.y_c0@
        + "\",\"c1\":\""@ + sp.b.y_c1@ + "\"}},\"c\":{\"infinity\":"@ + bool_text(sp.c.infinity)
        + ",\"x\":\""@ + sp.c.x@ + "\",\"y\":\""@ + sp.c.y@
        + "\"},\"curve\":\"bn254\",\"protocol\":\"groth16\"}"@
}

/// True when `s` is the canonical decimal text of the number `n`: digits
/// only, no superfluous leading zero, value exactly `n`. At most one text
/// satisfies this for a given `n`.
pub open spec fn is_canonical_decimal(s: Seq<char>, n: nat) -> bool {
    is_digits(s) && no_leading_zero(s) && dec_value(s) == n
}

/// Holds when `sp` is the structured decomposition of the proof `p`: each
/// coordinate text is the canonical decimal of the corresponding
/// coordinate's canonical integer, and each infinity flag is the point's.
pub open spec fn structured_matches(sp: StructuredProof, p: Proof) -> bool {
    &&& is_canonical_decimal(sp.a.x@, le_value(a_plain_of(p).0))
    &&& is_canonical_decimal(sp.a.y@, le_value(a_plain_of(p).1))
    &&& sp.a.infinity == a_plain_of(p).2
    &&& is_canonical_decimal(sp.b.x_c0@, le_value(b_plain_of(p).0))
    &&& is_canonical_decimal(sp.b.x_c1@, le_value(b_plain_of(p).1))
    &&& is_canonical_decimal(sp.b.y_c0@, le_value(b_plain_of(p).2))
    &&& is_canonical_decimal(sp.b.y_c1@, le_value(b_plain_of(p).3))
    &&& sp.b.infinity == b_plain_of(p).4
    &&& is_canonical_decimal(sp.c.x@, le_value(c_plain_of(p).0))
    &&& is_canonical_decimal(sp.c.y@, le_value(c_plain_of(p).1))
    &&& sp.c.infinity == c_plain_of(p).2
}

/// Holds when `text` is the JSON interchange text of the proof `p`.
pub open spec fn json_of(text: Seq<char>, p: Proof) -> bool {
    exists|sp: StructuredProof| structured_matches(sp, p) && text == json_text(sp)
}

/// Encodes a proof as its canonical 128-byte binary form.
pub fn encode_proof(p: &Proof) -> (r: Vec<u8>)
    ensures
        r@ == proof_encoding(*p),
        r@.len() == 128,
{
    proof_to_bytes(p)
}

/// Decodes canonical binary proof bytes. Every canonical encoding of a
/// backend-valid proof decodes to exactly that proof; any input that is
/// not 128 bytes long is rejected as malformed. (A few non-canonical
/// 128-byte texts also decode: under the infinity flag the deserializer
/// ignores the coordinate bytes.)
pub fn decode_proof(bytes: &[u8]) -> (r: Result<Proof, CodecError>)
    ensures
        decoding_of(bytes@, r),
        r is Ok <==> decodes(bytes@),
        r matches Ok(p) ==> p == decoded_of(bytes@),
        r is Ok ==> proof_wf(r->Ok_0),
        bytes@.len() != 128 ==> r is Err,
        r is Err ==> r == Err::<Proof, CodecError>(CodecError::Malformed),
{
    proof_from_bytes(bytes)
}

/// The binary codec round-trips: decoding the canonical encoding of a
/// backend-valid proof yields exactly that proof back.
pub fn decode_of_encode(p: &Proof) -> (r: Result<Proof, CodecError>)
    requires
        proof_wf(*p),
    ensures
        r == Ok::<Proof, CodecError>(*p),
{
    let bytes = encode_proof(p);
    decode_proof(bytes.as_slice())
}

/// Decomposes a proof into its structured interchange form: every
/// coordinate as the canonical decimal text of that coordinate's value,
/// every infinity flag the point's own.
pub fn to_structured(p: &Proof) -> (sp: StructuredProof)
    ensures
        sp.wf(),
        structured_matches(sp, *p),
{
    let (ax, ay, a_inf) = proof_a_plain(p);
    let (bx0, bx1, by0, by1, b_inf) = proof_b_plain(p);
    let (cx, cy, c_inf) = proof_c_plain(p);
    StructuredProof {
        a: G1Coordinates {
            x: le_bytes_to_decimal(&ax),
            y: le_bytes_to_decimal(&ay),
            infinity: a_inf,
        },
        b: G2Coordinates {
            x_c0: le_bytes_to_decimal(&bx0),
            x_c1: le_bytes_to_decimal(&bx1),
            y_c0: le_bytes_to_decimal(&by0),
            y_c1: le_bytes_to_decimal(&by1),
            infinity: b_inf,
        },
        c: G1Coordinates {
            x: le_bytes_to_decimal(&cx),
            y: le_bytes_to_decimal(&cy),
            infinity: c_inf,
        },
    }
}

/// Appends the JSON text of a boolean.
fn push_bool(out: &mut String, b: bool)
    ensures
        final(out)@ == old(out)@ + bool_text(b),
{
    if b {
        out.append("true");
    } else {
        out.append("false");
    }
}

/// Renders a structured proof as its exact JSON interchange text.
pub fn structured_to_json(sp: &StructuredProof) -> (r: String)
    ensures
        r@ == json_text(*sp),
{
    let mut out = String::new();
    out.append("{\"a\":{\"infinity\":");
    push_bool(&mut out, sp.a.infinity);
    out.append(",\"x\":\"");
    out.append(sp.a.x.as_str());
    out.append("\",\"y\":\"");
    out.append(sp.a.y.as_str());
    out.append("\"},\"b\":{\"infinity\":");
    push_bool(&mut out, sp.b.infinity);
    out.append(",\"x\":{\"c0\":\"");
    out.append(sp.b.x_c0.as_str());
    out.append("\",\"c1\":\"");
    out.append(sp.b.x_c1.as_str());
    out.append("\"},\"y\":{\"c0\":\"");
    out.append(sp.b.y_c0.as_str());
    out.append("\",\"c1\":\"");
    out.append(sp.b.y_c1.as_str());
    out.append("\"}},\"c\":{\"infinity\":");
    push_bool(&mut out, sp.c.infinity);
    out.append(",\"x\":\"");
    out.append(sp.c.x.as_str());
    out.append("\",\"y\":\"");
    out.append(sp.c.y.as_str());
    out.append("\"},\"curve\":\"bn254\",\"protocol\":\"groth16\"}");
    proof {
        assert(out@ =~= json_text(*sp));
    }
    out
}

} // verus!

//! Field Element Adapter: host-supplied values into scalar-field elements.
//!
//! Host text is admitted exactly when it is the canonical decimal form of
//! an element of `[0, field order)`; anything else — empty text, other
//! characters, a superfluous leading zero, a value at or above the order —
//! is rejected before it reaches the field layer.

use vstd::prelude::*;

use ark_bn254::Fr;

use crate::backend::{fr_from_decimal, fr_from_u64, fr_of};
use crate::decimal::{check_field_text, dec_value, valid_field_text};
use crate::errors::ParseError;

verus! {

/// Reads decimal text as a scalar-field element; accepts exactly the
/// canonical decimal forms of field elements, and returns the element of
/// the text's value.
pub fn parse_field_element(s: &str) -> (r: Result<Fr, ParseError>)
    ensures
        r is Ok <==> valid_field_text(s@),
        r matches Ok(v) ==> v == fr_of(dec_value(s@)),
        r is Err ==> r == Err::<Fr, ParseError>(ParseError::NotReducible),
{
    if check_field_text(s) {
        Ok(fr_from_decimal(s))
    } else {
        Err(ParseError::NotReducible)
    }
}

/// Embeds a small integer into the scalar field; total for every `u64`.
pub fn field_element_from_u64(n: u64) -> (r: Fr)
    ensures
        r == fr_of(n as nat),
{
    fr_from_u64(n)
}

/// Reads a whole public-input vector of decimal texts, in order; each
/// element is the field element of its text's value; fails on the first
/// entry that is not a canonical field element.
pub fn parse_public_inputs(texts: &Vec<String>) -> (r: Result<Vec<Fr>, ParseError>)
    ensures
        r is Ok <==> (forall|i: int|
            0 <= i < texts@.len() ==> valid_field_text(#[trigger] texts@[i]@)),
        r matches Ok(v) ==> v@.len() == texts@.len() && (forall|i: int|
            0 <= i < texts@.len() ==> #[trigger] v@[i] == fr_of(dec_value(texts@[i]@))),
        r is Err ==> r == Err::<Vec<Fr>, ParseError>(ParseError::NotReducible),
{
    let mut out: Vec<Fr> = Vec::new();
    let n = texts.len();
    let mut i: usize = 0;
    while i < n
        invariant
            0 <= i <= n,
            n == texts@.len(),
            out@.len() == i,
            forall|j: int| 0 <= j < i ==> valid_field_text(#[trigger] texts@[j]@),
            forall|j: int| 0 <= j < i ==> #[trigger] out@[j] == fr_of(dec_value(texts@[j]@)),
        decreases n - i,
    {
        match parse_field_element(texts[i].as_str()) {
            Ok(v) => {
                out.push(v);
            },
            Err(e) => {
                return Err(e);
            },
        }
        i += 1;
    }
    Ok(out)
}

} // verus!

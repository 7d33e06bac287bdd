//! Field Element Adapter: which texts are admitted, and what they denote.

use ark_bn254::Fr;

use zk_addition::circuit::Circuit;
use zk_addition::errors::ParseError;
use zk_addition::field::{field_element_from_u64, parse_field_element, parse_public_inputs};

const ORDER: &str = "21888242871839275222246405745257275088548364400416034343698204186575808495617";

const ORDER_MINUS_ONE: &str =
    "21888242871839275222246405745257275088548364400416034343698204186575808495616";

#[test]
fn small_decimal_parses_to_matching_element() {
    assert_eq!(parse_field_element("6").unwrap(), Fr::from(6u64));
    assert_eq!(parse_field_element("0").unwrap(), Fr::from(0u64));
    assert_eq!(parse_field_element("123456789123456789").unwrap(), Fr::from(123456789123456789u64));
}

#[test]
fn from_small_integer_is_total_and_matching() {
    assert_eq!(field_element_from_u64(9), Fr::from(9u64));
    assert_eq!(field_element_from_u64(u64::MAX), Fr::from(u64::MAX));
}

#[test]
fn malformed_texts_are_rejected() {
    assert_eq!(parse_field_element(""), Err(ParseError::NotReducible));
    assert_eq!(parse_field_element("abc"), Err(ParseError::NotReducible));
    assert_eq!(parse_field_element(" 6"), Err(ParseError::NotReducible));
    assert_eq!(parse_field_element("6 "), Err(ParseError::NotReducible));
    assert_eq!(parse_field_element("-6"), Err(ParseError::NotReducible));
    assert_eq!(parse_field_element("6.0"), Err(ParseError::NotReducible));
    assert_eq!(parse_field_element("018"), Err(ParseError::NotReducible));
    assert_eq!(parse_field_element("00"), Err(ParseError::NotReducible));
}

#[test]
fn values_at_or_above_the_field_order_are_rejected() {
    assert_eq!(parse_field_element(ORDER), Err(ParseError::NotReducible));
    let above = "99999999999999999999999999999999999999999999999999999999999999999999999999999";
    assert_eq!(parse_field_element(above), Err(ParseError::NotReducible));
    let much_longer =
        "218882428718392752222464057452572750885483644004160343436982041865758084956170";
    assert_eq!(parse_field_element(much_longer), Err(ParseError::NotReducible));
}

#[test]
fn largest_field_element_parses() {
    let v = parse_field_element(ORDER_MINUS_ONE).unwrap();
    assert_eq!(v, Fr::from(0u64) - Fr::from(1u64));
    let power = "10000000000000000000000000000000000000000000000000000000000000000000000000000";
    assert!(parse_field_element(power).is_ok());
}

#[test]
fn public_input_vectors_parse_in_order() {
    let ok = parse_public_inputs(&vec!["6".to_string(), "7".to_string()]).unwrap();
    assert_eq!(ok, vec![Fr::from(6u64), Fr::from(7u64)]);
    let empty = parse_public_inputs(&vec![]).unwrap();
    assert!(empty.is_empty());
    let bad = parse_public_inputs(&vec!["6".to_string(), "x".to_string()]);
    assert_eq!(bad, Err(ParseError::NotReducible));
}

#[test]
fn descriptor_modes_are_all_or_nothing() {
    assert!(Circuit::shape_only().is_well_formed());
    assert!(Circuit::demo_assignment().is_well_formed());
    let partial = Circuit { a: Some(Fr::from(4u64)), b: None, c: Some(Fr::from(6u64)) };
    assert!(!partial.is_well_formed());
}

#[test]
fn public_inputs_come_from_the_public_slot() {
    let assigned = Circuit::assigned(Fr::from(4u64), Fr::from(2u64), Fr::from(6u64));
    assert_eq!(assigned.public_inputs().unwrap(), vec![Fr::from(6u64)]);
    assert!(Circuit::shape_only().public_inputs().is_none());
}

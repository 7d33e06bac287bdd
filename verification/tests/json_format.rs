//! The structured interchange encoding: exact JSON text.

use zk_addition::codec::{structured_to_json, G1Coordinates, G2Coordinates, StructuredProof};

fn sample() -> StructuredProof {
    StructuredProof {
        a: G1Coordinates { x: "1".to_string(), y: "2".to_string(), infinity: false },
        b: G2Coordinates {
            x_c0: "3".to_string(),
            x_c1: "4".to_string(),
            y_c0: "5".to_string(),
            y_c1: "6".to_string(),
            infinity: true,
        },
        c: G1Coordinates { x: "7".to_string(), y: "8".to_string(), infinity: false },
    }
}

#[test]
fn structured_json_text_is_exact() {
    let expected = "{\"a\":{\"infinity\":false,\"x\":\"1\",\"y\":\"2\"},\"b\":{\"infinity\":true,\"x\":{\"c0\":\"3\",\"c1\":\"4\"},\"y\":{\"c0\":\"5\",\"c1\":\"6\"}},\"c\":{\"infinity\":false,\"x\":\"7\",\"y\":\"8\"},\"curve\":\"bn254\",\"protocol\":\"groth16\"}";
    assert_eq!(structured_to_json(&sample()), expected);
}

#[test]
fn structured_json_text_is_valid_json() {
    let text = structured_to_json(&sample());
    let v: serde_json::Value = serde_json::from_str(&text).unwrap();
    assert_eq!(v["a"]["x"].as_str().unwrap(), "1");
    assert_eq!(v["b"]["infinity"].as_bool().unwrap(), true);
    assert_eq!(v["b"]["y"]["c0"].as_str().unwrap(), "5");
    assert_eq!(v["protocol"].as_str().unwrap(), "groth16");
}

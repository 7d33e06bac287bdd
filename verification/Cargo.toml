[package]
name = "zk_addition"
version = "0.1.0"
edition = "2021"
publish = false

[dependencies]
ark-bn254 = "=0.3.0"
ark-ec = "=0.3.0"
ark-ff = "=0.3.0"
ark-groth16 = "=0.3.0"
ark-relations = "=0.3.0"
ark-serialize = "=0.3.0"
ark-std = "=0.3.0"
num-bigint = "0.4"
rand = "=0.8.5"

[dev-dependencies]
serde_json = "1"

[package]
name = "lego_groth16"
version = "0.1.0"
edition = "2021"
publish = false

[dependencies]
ark-ec = "0.5"
ark-ff = "0.5"
ark-std = "0.5"
ark-serialize = { version = "0.5", features = ["derive"] }
ark-bls12-381 = "0.5"
ark-relations = "0.5"
ark-poly = "0.5"

[package]
name = "keccak_bench"
version = "0.1.0"
edition = "2021"
publish = false

[dependencies]
ocl = "0.19"
sha3 = "=0.10.9"

[dev-dependencies]
tiny-keccak = { version = "=2.0.2", features = ["keccak"] }

[package]
name = "uplc_zkvm"
version = "0.1.0"
edition = "2021"
publish = false

[dependencies]
sha2 = "=0.11.0"
uplc = "=1.1.24"

[dev-dependencies]
hex = "=0.4.3"

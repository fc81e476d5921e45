[package]
name = "hello_contract"
version = "0.1.0"
edition = "2021"
publish = false

[dependencies]
soroban-sdk = "=21.7.7"
# Held below 2.6: the host asks for any ed25519-dalek from 2.0.0 on, and only
# the 2.x line, which needs no newer subtle, compiles with its test utilities.
subtle = "=2.5.0"

[dev-dependencies]
soroban-sdk = { version = "=21.7.7", features = ["testutils"] }

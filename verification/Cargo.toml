[package]
name = "rollkit_ibc"
version = "0.1.0"
edition = "2021"
publish = false

[dependencies]
base64 = "=0.22.1"
cosmwasm-std = { version = "=3.0.10", features = ["cosmwasm_2_0"] }
ibc-client-tendermint = "=0.57.0"
ibc-core = "=0.57.0"
ibc-proto = "=0.51.1"
serde = { version = "1", features = ["derive"] }
tendermint = "=0.40.4"
tendermint-light-client-verifier = "=0.40.4"

[dev-dependencies]
ics23 = "=0.12.0"
prost = "=0.13.5"
tendermint-testgen = "=0.40.4"

[package]
name = "dkls_session"
version = "0.1.0"
edition = "2021"
publish = false

[dependencies]
ciborium = "0.2"
derivation-path = "0.2"
k256 = "0.13"
rand = "0.8"
rand_chacha = "0.3"
serde = { version = "1", features = ["derive"] }

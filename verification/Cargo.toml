[package]
name = "policy_validator"
version = "0.1.0"
edition = "2021"
publish = false

[dependencies]
cedar-policy = "2"
wasm-bindgen = "0.2"

[package]
name = "sanctifier"
version = "0.1.0"
edition = "2021"
publish = false

[dependencies]
regex = "1"
syn = { version = "2", features = ["full"] }
quote = "1"
proc-macro2 = { version = "1", features = ["span-locations"] }
serde = { version = "1", features = ["derive"] }
serde_yaml = "0.9"
serde_json = "1"
soroban-sdk = "21"
clap = { version = "4", features = ["derive"] }
wasm-bindgen = "0.2"

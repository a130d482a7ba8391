[package]
name = "solfuzz"
version = "0.1.0"
edition = "2021"
publish = false

[dependencies]
hex = "*"
rand = "*"
revm = "*"
serde = { version = "*", features = ["derive"] }
serde_json = "*"
tiny-keccak = { version = "*", features = ["keccak"] }

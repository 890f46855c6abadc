[package]
name = "polymarket"
version = "0.1.0"
edition = "2021"
publish = false

[dependencies]
alloy = { version = "*", default-features = false, features = ["signer-local"] }
hex = "*"
serde = { version = "*", features = ["derive"] }
serde_json = "*"
reqwest = { version = "*", default-features = false, features = ["json"] }
async-trait = "*"
chrono = { version = "*", default-features = false, features = ["clock"] }
rust_decimal = "*"

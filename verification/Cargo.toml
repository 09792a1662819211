[package]
name = "dictionary"
version = "0.1.0"
edition = "2021"
publish = false

[dependencies]
serde_json = "*"
serde = { version = "*", features = ["derive"] }
reqwest = { version = "*", default-features = false }
wasm-bindgen = "*"
serde-wasm-bindgen = "*"
async-trait = "*"

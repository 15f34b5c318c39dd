[package]
name = "wallet_adapter"
version = "0.1.0"
edition = "2021"
publish = false

[dependencies]
bs58 = "0.5"
humantime = "2"
sha3 = "0.10"
rand_chacha = "0.9"
rand_core = { version = "0.9", features = ["os_rng"] }
ed25519-dalek = "2"
thiserror = "2"
async-channel = "2"
async-lock = "3"
wasm-bindgen-futures = "0.4"
web-sys = { version = "0.3", features = ["Window", "Document", "console", "Event", "EventTarget", "CustomEvent", "CustomEventInit"] }

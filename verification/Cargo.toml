[package]
name = "zeroframe"
version = "0.1.0"
edition = "2021"
publish = false

[dependencies]
serde = { version = "=1.0.229", features = ["derive"] }
serde_json = "=1.0.151"
base64 = "=0.13.1"
wasm-bindgen = { version = "=0.2.129", features = ["serde-serialize"] }
wasm-bindgen-futures = "0.4"
js-sys = "=0.3.106"
futures = "=0.3.34"
thiserror = "=1.0.69"

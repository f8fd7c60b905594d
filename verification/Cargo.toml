[package]
name = "quic_h3_emscripten"
version = "0.1.0"
edition = "2021"
publish = false

[dependencies]
anyhow = "1"
bytes = "1"
h3 = "*"
h3-quinn = "*"
http = "1"
quinn = { version = "0.11", default-features = false, features = ["rustls-ring", "runtime-tokio", "log"] }
rustls = { version = "0.23", default-features = false, features = ["ring", "std", "logging", "tls12"] }
tokio-quiche = { version = "*", default-features = false }
wasm-bindgen = "*"
webpki-roots = "*"

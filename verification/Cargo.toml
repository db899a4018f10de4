[package]
name = "c2pa_bridge"
version = "0.1.0"
edition = "2021"
publish = false

[dependencies]
c2pa = { version = "=0.90.22", default-features = false, features = ["rust_native_crypto", "file_io"] }
pem = "=4.0.0"
serde_json = "=1.0.151"

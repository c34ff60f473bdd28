[package]
name = "zed_curry"
version = "0.1.0"
edition = "2021"
publish = false

[dependencies]
serde_json = { version = "=1.0.154", features = ["float_roundtrip"] }
zed_extension_api = "=0.7.0"

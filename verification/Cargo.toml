[package]
name = "ecss_parser"
version = "0.1.0"
edition = "2021"
publish = false

[dependencies]
cssparser = "=0.35.0"
serde = { version = "=1.0.229", features = ["derive"] }
serde_json = "=1.0.154"
napi = { version = "=3.16.1", features = ["napi4", "serde-json"] }
napi-derive = "=3.7.0"

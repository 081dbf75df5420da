[package]
name = "domo"
version = "0.1.0"
edition = "2021"
publish = false

[dependencies]
base64 = "0.13"
serde = { version = "1", features = ["derive"] }
serde_json = "1"
serde_yaml = "0.8"
csv = "1"
structopt = "0.3"
surf = { version = "2", default-features = false, features = ["h1-client-rustls"] }
async-std = { version = "1", features = ["attributes"] }

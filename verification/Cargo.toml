[package]
name = "realtime"
version = "0.1.0"
edition = "2021"
publish = false

[dependencies]
serde_json = "=1.0.154"
rand = "=0.9.5"
syn = "=2.0.119"
chrono = "=0.4.45"
base64ct = { version = "=1.8.3", features = ["alloc"] }
jsonschema = { version = "=0.60.2", default-features = false }
anyhow = "=1.0.104"
http = "=1.5.0"
bson = "=2.15.0"
tokio-postgres = { version = "=0.7.18", default-features = false }
proc-macro2 = "=1.0.107"
quote = "=1.0.47"

[dev-dependencies]
regex = "=1.13.1"

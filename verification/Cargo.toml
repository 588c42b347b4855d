[package]
name = "apillon-simplet-blueprint-template"
version = "0.1.0"
edition = "2021"
publish = false

[dependencies]
serde = { version = "=1.0.229", features = ["derive"] }
serde_json = "=1.0.154"
sp-crypto-hashing = "=0.1.0"
tokio = { version = "=1.54.1", features = ["full"] }
async-trait = "=0.1.92"
color-eyre = "=0.6.5"
tracing = "=0.1.44"
bollard = "0.17"

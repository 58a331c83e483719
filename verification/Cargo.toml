[package]
name = "s3_signer"
version = "0.1.0"
edition = "2021"
publish = false

[dependencies]
async-trait = "0.1"
axum = { version = "0.8", default-features = false, features = ["json"] }
serde = "1"
uuid = "1"

[package]
name = "oidc_gate"
version = "0.1.0"
edition = "2021"
publish = false

[dependencies]
openidconnect = { version = "2", default-features = false }
rand = "0.8"
serde = { version = "1", features = ["derive"] }
tide = "0.16"

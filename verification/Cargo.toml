[package]
name = "authgate"
version = "0.1.0"
edition = "2021"
publish = false

[dependencies]
jsonwebtoken = { version = "=11.1.0", features = ["rust_crypto"] }
serde_json = "=1.0.151"
serde = { version = "=1.0.229", features = ["derive"] }
uuid = { version = "=1.27.0", features = ["v4", "serde"] }
tide = "=0.16.0"
async-std = { version = "=1.13.2", features = ["attributes"] }
surf = { version = "=2.3.2", default-features = false, features = ["h1-client-rustls"] }

[package]
name = "auth_checkpoint"
version = "0.1.0"
edition = "2021"
publish = false

[dependencies]
anyhow = "1"
async-trait = "0.1"
governor = "0.6"
hmac = "0.12"
http = "0.2"
jwt = "0.16"
reqwest = { version = "0.11", default-features = false }
schemars = "0.8"
serde = { version = "1", features = ["derive"] }
serde_json_bytes = "0.2"
sha2 = "0.10"
tokio = { version = "1", features = ["macros", "rt"] }
tower = { version = "0.4", features = ["buffer", "util"] }
warp = { version = "0.3", default-features = false }

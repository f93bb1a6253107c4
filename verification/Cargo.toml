[package]
name = "router"
version = "0.1.0"
edition = "2021"
publish = false

[dependencies]
actix-web = { version = "4", default-features = false }
async-trait = "0.1"
base64 = "0.22"
dyn-clone = "1"
error-stack = "0.4"
futures = "0.3"
serde = { version = "1", features = ["derive"] }
serde_json = "1"

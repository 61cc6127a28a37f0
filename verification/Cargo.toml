[package]
name = "interceptor_chain"
version = "0.1.0"
edition = "2021"
publish = false

[dependencies]
actix = "0.10"
actix-files = "0.5"
actix-service = "1"
actix-session = "0.4"
actix-web = "3"
actix-web-actors = "3"
bytes = "0.5"
derive_more = "0.99"
env_logger = "0.7"
futures = "0.3"
log = "0.4"
rand = "0.7"
serde = { version = "1", features = ["derive"] }
serde_json = "1"

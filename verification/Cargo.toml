[package]
name = "actix_identity"
version = "0.1.0"
edition = "2021"
publish = false

[dependencies]
actix-session = "*"
actix-web = { version = "4", default-features = false, features = ["cookies"] }
actix-utils = "3"
serde_json = "1"
time = "0.3"

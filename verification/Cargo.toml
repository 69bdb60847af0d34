[package]
name = "token_service"
version = "0.1.0"
edition = "2021"
publish = false

[dependencies]
rand = "*"
redis = "*"
clap = "*"
serde = { version = "*", features = ["derive"] }
serde_json = "*"
actix-web = "*"

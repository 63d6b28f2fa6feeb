[package]
name = "user_api"
version = "0.1.0"
edition = "2021"
publish = false

[dependencies]
actix-web = "*"
mongodb = "*"
serde = { version = "*", features = ["derive"] }

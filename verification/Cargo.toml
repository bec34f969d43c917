[package]
name = "connect4"
version = "0.1.0"
edition = "2021"
publish = false

[dependencies]
rand = "0.8"
rust-argon2 = "*"
chrono = "0.4"
serde = { version = "1", features = ["derive"] }
serde_json = "1"
dotenv = "0.15"
mongodb = { version = "2", default-features = false, features = ["sync"] }

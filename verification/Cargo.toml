[package]
name = "learning"
version = "0.1.0"
edition = "2021"
publish = false

[dependencies]
email_address = "0.2"
actix-web = { version = "4", default-features = false, features = ["macros"] }
actix-web-flash-messages = "*"
serde = { version = "1", features = ["derive"] }
secrecy = { version = "0.8", features = ["serde"] }
dotenv = "0.15"
env_logger = "0.11"
anyhow = "1"
tracing = "0.1"

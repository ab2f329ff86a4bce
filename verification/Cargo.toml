[package]
name = "trieve_server"
version = "0.1.0"
edition = "2021"
publish = false

[dependencies]
uuid = { version = "1", features = ["v4"] }
rust-argon2 = "2"
rand = "0.8"
regex = "1"
serde = { version = "1", features = ["derive"] }
serde_json = "1"
log = "0.4"
once_cell = "1"
futures = "0.3"
tokio = { version = "1", features = ["macros", "rt-multi-thread"] }
redis = { version = "~0.24", features = ["tokio-comp"] }
qdrant-client = "~1.7"

[package]
name = "message_archiver"
version = "0.1.0"
edition = "2021"
publish = false

[dependencies]
async-trait = "0.1"
bson = "2"
chrono = "0.4"
clap = { version = "4", features = ["derive"] }
mongodb = "2"
serde = { version = "1", features = ["derive"] }
serde_json = "1"
serenity = "0.11"
thiserror = "1"
tokio = { version = "1", features = ["macros", "rt-multi-thread"] }
toml = "0.8"
uuid = { version = "1", features = ["v4"] }

[package]
name = "commit_message"
version = "0.1.0"
edition = "2021"
publish = false

[dependencies]
async-trait = "0.1"
iocraft = "*"
reqwest = { version = "0.12", default-features = false, features = ["json", "rustls-tls"] }
serde = { version = "1", features = ["derive"] }
serde_json = "1"
tokio = { version = "1", features = ["macros", "rt-multi-thread"] }

[package]
name = "ddns"
version = "0.1.0"
edition = "2021"
publish = false

[dependencies]
reqwest = { version = "=0.13.5", default-features = false, features = ["json", "query"] }
serde = { version = "=1.0.229", features = ["derive"] }
serde_yaml = "=0.9.34"
tokio = { version = "=1.53.2", features = ["macros", "rt-multi-thread"] }

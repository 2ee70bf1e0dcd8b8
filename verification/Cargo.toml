[package]
name = "address_index"
version = "0.1.0"
edition = "2021"
publish = false

[dependencies]
elasticsearch = "=8.19.0-alpha.1"
serde_json = "*"
tokio = { version = "*", features = ["macros", "rt-multi-thread"] }

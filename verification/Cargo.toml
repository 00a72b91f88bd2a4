[package]
name = "earningsfeed"
version = "0.1.0"
edition = "2021"
publish = false

[dependencies]
serde = { version = "1", features = ["derive"] }
serde_json = "1"
reqwest = { version = "0.12", default-features = false, features = ["json"] }
futures = "0.3"
async-stream = "0.3"
chrono = { version = "0.4", features = ["serde"] }
rust_decimal = "1"

[package]
name = "gpt_anywhere"
version = "0.1.0"
edition = "2021"
publish = false

[dependencies]
serde = { version = "1", features = ["derive"] }
reqwest = { version = "0.11", default-features = false, features = ["stream"] }
futures-util = "0.3"

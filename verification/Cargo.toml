[package]
name = "entry_transactions"
version = "0.1.0"
edition = "2021"
publish = false

[dependencies]
flate2 = "1"
serde = { version = "1", features = ["derive"] }
rmp-serde = "1"
reqwest = { version = "*", default-features = false }
url = "2"

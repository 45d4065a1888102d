[package]
name = "bestbuy"
version = "0.1.0"
edition = "2021"
publish = false

[dependencies]
serde = { version = "1", features = ["derive"] }
serde_json = "1"
chrono = { version = "0.4", default-features = false, features = ["std", "clock", "serde"] }
reqwest = { version = "0.12", default-features = false, features = ["blocking", "json"] }
clap = "4"
dotenv = "0.15"

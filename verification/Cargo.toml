[package]
name = "midas_client"
version = "0.1.0"
edition = "2021"
publish = false

[dependencies]
serde = { version = "1", features = ["derive"] }
serde_json = "1"
reqwest = { version = "*", default-features = false, features = ["json", "stream"] }
futures-util = "*"
thiserror = "*"

[package]
name = "veya_core"
version = "0.1.0"
edition = "2021"
publish = false

[dependencies]
serde_json = "*"
whatlang = "*"
serde = { version = "*", features = ["derive"] }
reqwest = { version = "*", default-features = false, features = ["json", "stream"] }
tokio = { version = "*", features = ["rt", "rt-multi-thread", "time", "macros"] }
futures-util = "*"
uuid = { version = "*", features = ["v4"] }

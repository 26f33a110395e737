[package]
name = "webm_jobs"
version = "0.1.0"
edition = "2021"
publish = false

[dependencies]
actix-multipart = "0.6"
actix-web = "4"
futures-util = "0.3"
serde = { version = "1", features = ["derive"] }
serde_json = "1"
tempfile = "3"
tokio = { version = "1", features = ["fs", "process", "time", "rt", "macros"] }
uuid = { version = "1", features = ["v4"] }

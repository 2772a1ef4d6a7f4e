[package]
name = "task_api"
version = "0.1.0"
edition = "2021"
publish = false

[dependencies]
diesel = "2"
axum = "0.7"
tokio = { version = "1", features = ["macros", "rt-multi-thread", "net"] }
uuid = { version = "1", features = ["v4"] }
chrono = "0.4"

[dev-dependencies]
serde_json = "1"

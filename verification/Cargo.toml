[package]
name = "weather_alerts"
version = "0.1.0"
edition = "2021"
publish = false

[dependencies]
serde = { version = "*", features = ["derive"] }
serde_json = "*"
reqwest = { version = "*", default-features = false, features = ["json"] }
tokio = { version = "*", features = ["rt-multi-thread", "macros", "net", "time"] }
axum = "*"
tower-http = { version = "*", features = ["cors"] }
dotenv = "*"

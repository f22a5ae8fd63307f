[package]
name = "service_core"
version = "0.1.0"
edition = "2021"
publish = false

[dependencies]
axum = "*"
chrono = "*"
clap = { version = "*", features = ["derive"] }
diesel = { version = "*", features = ["r2d2"] }
dotenvy = "*"
serde = { version = "*", features = ["derive"] }
serde_json = "*"
tokio = { version = "*", features = ["macros", "rt-multi-thread", "net"] }
tower = "*"
tower-http = { version = "*", features = ["trace", "catch-panic", "fs"] }
tracing = "*"
tracing-subscriber = { version = "*", features = ["env-filter"] }
uuid = { version = "*", features = ["v4"] }

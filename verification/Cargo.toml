[package]
name = "grenze"
version = "0.1.0"
edition = "2021"
publish = false

[dependencies]
http = "=1.5.0"
anyhow = "=1.0.104"
axum = "=0.8.9"
redis = { version = "=1.7.1", default-features = false, features = ["tokio-comp", "script"] }
reqwest = { version = "=0.13.5", default-features = false, features = ["json", "query"] }
serde = { version = "=1.0.229", features = ["derive"] }
serde_json = "=1.0.151"
tokio = { version = "=1.53.2", features = ["macros", "rt-multi-thread", "signal", "time", "net"] }

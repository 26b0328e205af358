[package]
name = "fricu_server"
version = "0.1.0"
edition = "2021"
publish = false

[dependencies]
anyhow = "1"
axum = "0.7"
r2d2 = "0.8"
r2d2_sqlite = "*"
reqwest = { version = "0.12", default-features = false, features = ["json"] }
rusqlite = "*"
serde_json = "1"
thiserror = "1"
tokio = { version = "1", features = ["macros", "rt-multi-thread", "net"] }
tracing = "0.1"
tracing-subscriber = { version = "0.3", features = ["env-filter"] }

[package]
name = "dhesinta"
version = "0.1.0"
edition = "2021"
publish = false

[dependencies]
anyhow = "1"
argonautica = "0.2"
async-trait = "0.1"
axum = "0.8"
axum-login = "*"
chrono = { version = "0.4", features = ["serde"] }
env_logger = "0.11"
log = "0.4"
mlua = { version = "0.10", features = ["luau"] }
nanoid = "0.4"
rand = "0.9"
serde = { version = "1", features = ["derive"] }
serde_json = "1"
sqlx = { version = "0.8", features = ["sqlite", "runtime-tokio", "chrono"] }
thiserror = "2"
tokio = { version = "1", features = ["full"] }
toml = "0.8"
tower-sessions = { version = "*", features = ["signed"] }
tower-sessions-sqlx-store = { version = "*", features = ["sqlite"] }

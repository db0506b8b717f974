[package]
name = "matter_influx"
version = "0.1.0"
edition = "2021"
publish = false

[dependencies]
anyhow = "*"
askama = "*"
axum = "*"
eyre = "*"
futures = "*"
influx_db_client = "*"
log = "*"
matter-clusters = "*"
matter-controller = "*"
serde = { version = "*", features = ["derive"] }
tokio = { version = "*", features = ["macros", "rt-multi-thread", "net"] }
toml = "*"
tracing-subscriber = { version = "*", features = ["env-filter"] }

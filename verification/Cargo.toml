[package]
name = "env_vars"
version = "0.1.0"
edition = "2021"
publish = false

[dependencies]
async-trait = "=0.1.92"
dotenvy = "=0.15.7"
serde = { version = "=1.0.229", features = ["derive"] }
shuttle-service = "=0.26.0"
shuttle-static-folder = "=0.26.0"
tracing = "=0.1.44"

[dev-dependencies]
tempfile = "=3.27.0"
tokio = { version = "=1.53.2", features = ["full"] }

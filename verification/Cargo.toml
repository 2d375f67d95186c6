[package]
name = "mailify"
version = "0.1.0"
edition = "2021"
publish = false

[dependencies]
axum = "=0.6.20"
clap = { version = "=4.6.7", features = ["derive", "env"] }
lettre = { version = "=0.10.4", default-features = false, features = ["builder", "smtp-transport"] }
serde = { version = "=1.0.229", features = ["derive"] }
thiserror = "=1.0.69"
tokio = { version = "=1.54.1", features = ["macros", "rt-multi-thread"] }
toml = "=1.1.8"
tracing = "=0.1.44"
utoipa = "=4.2.3"

[dev-dependencies]
serde_json = "=1.0.154"

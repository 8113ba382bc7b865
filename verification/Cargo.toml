[package]
name = "app_operator"
version = "0.1.0"
edition = "2021"
publish = false

[dependencies]
actix-web = "*"
chrono = "*"
futures = "*"
k8s-openapi = { version = "*", features = ["latest"] }
opentelemetry = "*"
prometheus = "*"
schemars = "*"
serde = { version = "*", features = ["derive"] }
serde_json = "*"
thiserror = "*"
tokio = { version = "*", features = ["macros", "rt-multi-thread", "sync", "time"] }
tracing = "*"
tracing-opentelemetry = "*"
tracing-subscriber = { version = "*", features = ["env-filter"] }

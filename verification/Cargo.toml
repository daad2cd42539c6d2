[package]
name = "service_runtime"
version = "0.1.0"
edition = "2021"
publish = false

[dependencies]
async-graphql = "*"
async-graphql-axum = "*"
axum = "*"
dotenv = "0.15"
opentelemetry = "*"
serde = { version = "1", features = ["derive"] }
tokio = { version = "1", features = ["full"] }
tower-http = { version = "*", features = ["timeout", "trace"] }
tracing = "0.1"
tracing-opentelemetry = "*"
tracing-subscriber = "0.3"

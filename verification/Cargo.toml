[package]
name = "neoteo_courses"
version = "0.1.0"
edition = "2021"
publish = false

[dependencies]
anyhow = "=1.0.104"
axum = "=0.8.9"
axum-extra = { version = "=0.10.3", default-features = false, features = ["query", "typed-header"] }
chrono = { version = "=0.4.45", default-features = false, features = ["clock", "serde", "std"] }
dotenv = "=0.15.0"
gigalib = "=0.1.3"
jsonwebtoken = "=9.3.1"
minio = "=0.3.0"
r2d2 = "=0.8.10"
redis = { version = "=0.32.7", default-features = false, features = ["r2d2"] }
reqwest = { version = "=0.12.28", features = ["json"] }
serde = { version = "=1.0.229", features = ["derive"] }
serde_json = "=1.0.154"
sqlx = { version = "=0.8.6", default-features = false, features = ["mysql", "runtime-tokio", "chrono", "derive"] }
tokio = { version = "=1.54.1", features = ["macros", "net", "rt-multi-thread"] }
tower = { version = "=0.5.3", features = ["buffer", "limit"] }
tower-http = { version = "=0.6.11", features = ["catch-panic", "cors"] }
tracing = "=0.1.44"
tracing-subscriber = { version = "=0.3.23", default-features = false, features = ["ansi", "fmt"] }
utoipa = "=5.5.0"
utoipa-swagger-ui = { version = "=9.0.2", features = ["axum", "vendored"] }

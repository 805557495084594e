[package]
name = "api"
version = "0.1.0"
edition = "2021"
publish = false

[dependencies]
axum = "0.6"
bcrypt = "*"
chrono = "0.4"
cookie = "0.17"
dotenv = "0.15"
rspc = "*"
serde = { version = "1", features = ["derive"] }
specta = "*"
sqlx = { version = "0.7", features = ["runtime-tokio", "postgres", "chrono", "migrate"] }
tokio = { version = "1", features = ["full"] }
tower-http = { version = "0.4", features = ["cors"] }
tracing = "0.1"
tracing-subscriber = "0.3"
uuid = { version = "1", features = ["v4"] }

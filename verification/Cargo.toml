[package]
name = "penspecter"
version = "0.1.0"
edition = "2021"
publish = false

[dependencies]
argon2 = "=0.5.3"
axum = "=0.8.9"
chrono = "=0.4.45"
color-print = "=0.3.7"
dotenv = "=0.15.0"
serde = { version = "=1.0.229", features = ["derive"] }
sqlx = { version = "=0.8.6", default-features = false, features = ["runtime-tokio", "postgres"] }
tokio = { version = "=1.53.2", features = ["rt-multi-thread", "macros", "net"] }

[package]
name = "availability"
version = "0.1.0"
edition = "2021"
publish = false

[dependencies]
chrono = "0.4"
rrule = "*"
axum = "0.7"
serde = { version = "1", features = ["derive"] }
sqlx = { version = "0.7", default-features = false, features = ["runtime-tokio", "postgres", "chrono"] }
tokio = { version = "1", features = ["full"] }
tower-http = { version = "0.5", features = ["fs"] }

[package]
name = "dushulang"
version = "0.1.0"
edition = "2021"
publish = false

[dependencies]
anyhow = "1"
bcrypt = "0.15"
chrono = { version = "0.4", features = ["serde"] }
diesel = { version = "2.1", features = ["postgres", "r2d2", "uuid", "chrono"] }
dotenv = "0.15"
jsonwebtoken = "9"
redis = { version = "0.24", features = ["tokio-comp"] }
serde = { version = "1", features = ["derive"] }
serde_json = "1"
sqlx = { version = "0.7", default-features = false, features = ["runtime-tokio", "postgres", "uuid", "chrono", "migrate", "macros"] }
thiserror = "1"
tokio = { version = "1", features = ["full"] }
tracing = "0.1"
tracing-subscriber = { version = "0.3", features = ["env-filter"] }
uuid = { version = "1", features = ["v4", "serde"] }
validator = { version = "0.16", features = ["derive"] }
warp = { version = "0.3", default-features = false }

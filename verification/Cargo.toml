[package]
name = "pbank"
version = "0.1.0"
edition = "2021"
publish = false

[dependencies]
jsonwebtoken = "=9.3.1"
bcrypt = "=0.15.1"
uuid = { version = "=1.27.0", features = ["v4", "serde"] }
serde = { version = "1", features = ["derive"] }
serde_json = "1"
chrono = "0.4"
actix-web = "=4.15.0"
sqlx = { version = "=0.8.6", default-features = false, features = ["runtime-tokio", "sqlite", "migrate"] }
dotenv = "0.15"

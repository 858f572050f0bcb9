[package]
name = "user_service"
version = "0.1.0"
edition = "2021"
publish = false

[dependencies]
actix-web = "*"
argon2 = "*"
chrono = { version = "*", features = ["serde"] }
dotenvy = "*"
serde = { version = "*", features = ["derive"] }
sqlx = { version = "*", features = ["runtime-tokio", "postgres", "chrono"] }

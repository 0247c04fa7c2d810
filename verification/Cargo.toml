[package]
name = "auth_core"
version = "0.1.0"
edition = "2021"
publish = false

[dependencies]
rust-argon2 = "=3.0.0"
hmac = "=0.12.1"
jwt = "=0.16.0"
sha2 = "=0.10.9"
rand = "=0.10.3"
serde = { version = "=1.0.229", features = ["derive"] }
actix-web = "=4.15.0"
actix-web-httpauth = "=0.8.3"
sqlx = { version = "=0.9.0", default-features = false, features = ["postgres", "runtime-tokio", "derive", "chrono"] }
dotenv = "=0.15.0"
chrono = { version = "=0.4.45", features = ["serde"] }

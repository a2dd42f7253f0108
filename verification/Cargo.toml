[package]
name = "backend"
version = "0.1.0"
edition = "2021"
publish = false

[dependencies]
uuid = { version = "=1.29.0", features = ["v4"] }
chrono = "=0.4.45"
serde = { version = "=1.0.229", features = ["derive"] }
jsonwebtoken = "=9.3.1"
dotenvy = "=0.15.7"
log = "=0.4.35"
actix-web = { version = "=4.18.1", default-features = false, features = ["macros", "cookies"] }

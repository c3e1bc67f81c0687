[package]
name = "user_service"
version = "0.1.0"
edition = "2021"
publish = false

[dependencies]
actix-rt = "=1.1.1"
actix-web = "=3.3.3"
actix-web-httpauth = "=0.5.1"
anyhow = "=1.0.104"
chrono = { version = "=0.4.45", features = ["serde"] }
diesel = { version = "=1.4.8", features = ["sqlite", "r2d2", "chrono"] }
dotenv = "=0.15.0"
serde = { version = "=1.0.229", features = ["derive"] }

[package]
name = "rfq_hub"
version = "0.1.0"
edition = "2021"
publish = false

[dependencies]
actix = "=0.13.5"
actix-cors = "=0.7.2"
actix-files = "=0.7.2"
actix-web = "=4.18.1"
actix-web-actors = "=4.3.1"
chrono = { version = "=0.4.45", features = ["serde"] }
dotenv = "=0.15.0"
env_logger = "=0.11.11"
jsonwebtoken = "9"
lettre = "=0.11.23"
log = "=0.4.34"
serde = { version = "=1.0.229", features = ["derive"] }
serde_json = "=1.0.154"
sqlx = { version = "=0.9.0", default-features = false, features = ["runtime-tokio", "mysql", "chrono", "macros"] }
tokio = { version = "=1.54.1", features = ["rt", "macros"] }

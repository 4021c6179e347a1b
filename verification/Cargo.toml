[package]
name = "my_rust_framework"
version = "0.1.0"
edition = "2021"
publish = false

[dependencies]
actix-governor = "*"
actix-web = "4"
chrono = { version = "0.4", features = ["serde"] }
dotenv = "0.15"
env_logger = "*"
futures = "0.3"
include_dir = "0.7"
jsonwebtoken = "9"
log = "0.4"
mime_guess = "2"
rand = "0.9"
reqwest = { version = "0.12", default-features = false }
rust-argon2 = "*"
serde = { version = "1", features = ["derive"] }
serde_json = "1"
sqlx = { version = "0.8", default-features = false, features = ["sqlite", "runtime-tokio", "chrono", "migrate", "derive"] }
tera = { version = "1", default-features = false }
thiserror = "*"
tokio-cron-scheduler = "*"

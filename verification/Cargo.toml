[package]
name = "cogito_api"
version = "0.1.0"
edition = "2021"
publish = false

[dependencies]
uuid = { version = "1", features = ["v4"] }
argon2 = "0.5"
password-hash = { version = "0.5", features = ["rand_core"] }
rand = "0.8"
chrono = "0.4"
actix-web = "4"
actix-cors = "0.7"
serde = { version = "1", features = ["derive"] }
serde_json = "1"
sqlx = { version = "0.8", default-features = false, features = ["postgres", "runtime-tokio", "chrono", "uuid"] }
dotenvy = "0.15"
env_logger = "0.11"
log = "0.4"
utoipa = { version = "5", features = ["actix_extras"] }
utoipa-redoc = { version = "*", features = ["actix-web"] }

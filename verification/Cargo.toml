[package]
name = "catalog_core"
version = "0.1.0"
edition = "2021"
publish = false

[dependencies]
bcrypt = "0.15"
chrono = { version = "0.4", features = ["serde"] }
actix = "0.13"
actix-web = { version = "4", default-features = false, features = ["macros", "compress-gzip"] }
actix-cors = "0.6"
actix-files = "0.6"
actix-multipart = "0.4"
actix-web-httpauth = "0.8"
diesel = { version = "1.4", features = ["postgres", "chrono"] }
dotenv = "0.15"
env_logger = "0.10"
futures = "0.3"
log = "0.4"
reqwest = { version = "0.11", default-features = false }
serde = { version = "1", features = ["derive"] }
serde_json = "1"

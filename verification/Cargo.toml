[package]
name = "lajp_fi"
version = "0.1.0"
edition = "2021"
publish = false

[dependencies]
hmac = "0.12"
sha2 = "0.10"
hex = "0.4"
regex = "1"
chrono = { version = "0.4", features = ["serde"] }
rand = "0.8"
actix-web = "4"
actix-files = "0.6"
actix-multipart = "0.6"
actix-rt = "2"
actix-http = "3"
futures-util = "0.3"
reqwest = { version = "0.11", default-features = false, features = ["json", "rustls-tls"] }
tera = "1"
serde = { version = "1", features = ["derive"] }
serde_derive = "1"
dotenv = "0.15"
env_logger = "0.10"
thiserror = "1"
diesel = { version = "2", features = ["postgres", "r2d2", "chrono"] }
r2d2 = "0.8"

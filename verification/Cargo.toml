[package]
name = "identity"
version = "0.1.0"
edition = "2021"
publish = false

[dependencies]
rust-argon2 = "=0.8.3"
jsonwebtoken = "9"
serde_json = "=1.0.154"
chrono = "=0.4.45"
rand = "=0.7.3"
serde = { version = "=1.0.229", features = ["derive"] }
sled = "=0.34.7"
bincode = "=1.3.3"
dotenv = "=0.15.0"
lazy_static = "=1.5.1"
log = "=0.4.34"
log4rs = "=1.4.0"
lettre = "=0.9.6"
lettre_email = "=0.9.4"
rocket = { version = "0.5", features = ["json"] }

[dev-dependencies]
regex = "=1.13.1"

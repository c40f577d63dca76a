[package]
name = "auth_service"
version = "0.1.0"
edition = "2021"
publish = false

[dependencies]
actix-web = "4"
base64 = "0.13"
bcrypt = "0.15"
chrono = "0.4"
dotenv = "0.15"
jwt-simple = "0.11"
mongodb = "2"
rand = "0.8"
regex = "1"
serde = { version = "1", features = ["derive"] }
uuid = { version = "1", features = ["v4"] }

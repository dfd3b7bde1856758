[package]
name = "realty"
version = "0.1.0"
edition = "2021"
publish = false

[dependencies]
actix-cors = "*"
actix-files = "*"
actix-multipart = "*"
actix-web = "*"
bcrypt = "*"
chrono = { version = "*", features = ["serde"] }
dotenv = "*"
infer = "*"
serde = { version = "*", features = ["derive"] }
serde_json = "*"
slug = "*"
uuid = { version = "*", features = ["v4", "serde"] }

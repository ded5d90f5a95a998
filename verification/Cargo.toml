[package]
name = "nocturnal"
version = "0.1.0"
edition = "2021"
publish = false

[dependencies]
dotenv = "0.15"
mongodb = "2"
rocket = { version = "0.5", features = ["json"] }
serde = { version = "1", features = ["derive"] }
thiserror = "1"

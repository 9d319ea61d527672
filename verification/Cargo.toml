[package]
name = "aw_api"
version = "0.1.0"
edition = "2021"
publish = false

[dependencies]
actix-web = "4"
argon2 = { version = "0.5", features = ["std"] }
blob-uuid = "*"
chrono = "0.4"
config = { version = "0.13", default-features = false, features = ["yaml"] }
regex = "1"
serde = { version = "1", features = ["derive"] }
serde_json = "1"
sluggify = "*"
sqlx = { version = "0.7", default-features = false, features = ["runtime-tokio", "postgres", "uuid", "chrono"] }
uuid = { version = "1", features = ["v4"] }
validator = "0.16"

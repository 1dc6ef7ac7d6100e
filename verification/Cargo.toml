[package]
name = "error_taxonomy"
version = "0.1.0"
edition = "2021"
publish = false

[dependencies]
serde = { version = "*", features = ["derive"] }
serde_json = "*"
sqlx = { version = "*", default-features = false }
argon2 = "*"
uuid = { version = "*", features = ["v4", "serde"] }
async-trait = "*"
dotenv = "*"

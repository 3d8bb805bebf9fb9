[package]
name = "memopad"
version = "0.1.0"
edition = "2021"
publish = false

[dependencies]
actix-files = "*"
actix-rt = "*"
actix-web = "*"
askama = "*"
diesel = { version = "*", features = ["postgres", "r2d2"] }
dotenv = "*"
env_logger = "*"
log = "*"
serde = { version = "*", features = ["derive"] }

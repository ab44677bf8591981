[package]
name = "save2read"
version = "0.1.0"
edition = "2021"
publish = false

[dependencies]
rand = "*"
url = "*"
anyhow = "*"
tokio = { version = "*", features = ["sync", "rt", "macros"] }
actix-web = "*"
actix-rt = "*"
actix-session = { version = "*", features = ["cookie-session"] }
awc = "*"
sqlx = { version = "*", features = ["sqlite", "runtime-tokio"] }
handlebars = "*"
scraper = "*"
encoding_rs = "*"
regex = "*"
serde = { version = "*", features = ["derive"] }
serde_json = "*"
log = "*"
env_logger = "*"

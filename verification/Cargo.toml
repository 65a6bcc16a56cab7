[package]
name = "rustbot"
version = "0.1.0"
edition = "2021"
publish = false

[dependencies]
serenity = "0.12.4"
poise = "0.6.1"
rand = "0.9"
tokio = { version = "1", features = ["full"] }
sqlx = { version = "0.8", default-features = false, features = ["sqlite", "runtime-tokio"] }
serde = { version = "1", features = ["derive"] }
serde_json = "1"
toml = "0.8"
reqwest = { version = "0.12", default-features = false, features = ["rustls-tls", "json"] }
chrono = "0.4"
thousands = "0.2"
urlencoding = "2"
url = "2"
thiserror = "2"
axum = "0.8"
quickchart-rs = "*"
image = "0.25"

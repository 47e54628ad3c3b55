[package]
name = "moss"
version = "0.1.0"
edition = "2021"
publish = false

[dependencies]
urlencoding = "=2.1.3"
url = "=2.5.8"
uuid = { version = "=1.29.0", features = ["v4"] }
getrandom = "=0.4.3"
shellexpand = "=3.1.2"
clap = { version = "=4.6.7", features = ["derive"] }
serde = { version = "=1.0.229", features = ["derive"] }
serde_json = "=1.0.154"
toml = "=1.1.8"
tokio = { version = "=1.54.1", features = ["full"] }
dirs = "=7.0.0"
notify = "=8.2.1"
reqwest = { version = "=0.12.28", default-features = false, features = ["rustls-tls", "json"] }
zip = { version = "=2.6.1", default-features = false, features = ["deflate"] }

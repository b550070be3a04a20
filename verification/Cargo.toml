[package]
name = "zuse"
version = "0.1.0"
edition = "2021"
publish = false

[dependencies]
anyhow = "1"
base64 = "0.12"
clap = "2.33"
futures = "0.3"
handlebars = "3"
hyper = "0.13"
reqwest = { version = "0.10", default-features = false, features = ["rustls-tls"] }
rusoto_core = { version = "0.45", default-features = false, features = ["rustls"] }
rusoto_sns = { version = "0.45", default-features = false, features = ["rustls"] }
rusoto_sts = { version = "0.45", default-features = false, features = ["rustls"] }
serde = { version = "1", features = ["derive"] }
serde_derive = "1"
serde_yaml = "0.8"
telegram-bot = { version = "0.8", default-features = false, features = ["rustls"] }
tokio = { version = "0.2", features = ["full"] }
url = "2"

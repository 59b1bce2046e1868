[package]
name = "steam_api"
version = "0.1.0"
edition = "2021"
publish = false

[dependencies]
byteorder = "1"
chrono = "0.4"
futures = "0.3"
md5 = "0.7"
reqwest = { version = "0.11", default-features = false, features = ["cookies", "json", "rustls-tls"] }
scraper = "*"
serde = { version = "1", features = ["derive"] }
serde_json = "1"
thiserror = "1"
tokio = { version = "1", features = ["macros", "rt", "time"] }

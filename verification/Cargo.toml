[package]
name = "puddler"
version = "0.1.0"
edition = "2021"
publish = false

[dependencies]
urlencoding = "2"
isolanguage-1 = "*"
uuid = { version = "1", features = ["v4"] }
serde = { version = "1", features = ["derive"] }
serde_json = "1"
chrono = "*"
toml = "*"
dirs = "*"
reqwest = { version = "*", default-features = false, features = ["blocking", "json", "rustls-tls"] }
tungstenite = "*"

[package]
name = "llg_companion"
version = "0.1.0"
edition = "2021"
publish = false

[dependencies]
base64 = "0.21"
flate2 = "1"
chrono = "0.4"
html5ever = "0.24"
serde_json = "1"
serde = { version = "1", features = ["derive"] }
reqwest = { version = "0.12", default-features = false, features = ["blocking", "cookies"] }
mongodb = { version = "3", default-features = false, features = ["sync", "rustls-tls", "compat-3-0-0"] }
bson = "2"
rocket = { version = "0.5", features = ["json", "secrets"] }
bcrypt = "*"
clap = "2"
toml = "0.5"

[package]
name = "cfsurge"
version = "0.1.0"
edition = "2021"
publish = false

[dependencies]
crossterm = "0.28"
home = "0.5"
reqwest = { version = "0.12", default-features = false, features = ["blocking", "json", "rustls-tls"] }
serde = { version = "1", features = ["derive"] }
serde_json = "1"
sha2 = "0.10"
signal-hook = "0.3"
urlencoding = "2"
walkdir = "2"

[package]
name = "suppressor"
version = "0.1.0"
edition = "2021"
publish = false

[dependencies]
anyhow = "1"
chrono = "0.4"
chrono-tz = "*"
sha2 = "0.10"
rand = "0.8"
serde = { version = "1", features = ["derive"] }
serde_json = "1"
toml = "*"
nix = { version = "*", features = ["signal", "process"] }
reqwest = { version = "0.12", default-features = false, features = ["blocking", "rustls-tls", "cookies"] }

[package]
name = "setup_devbox"
version = "0.1.0"
edition = "2021"
publish = false

[dependencies]
chrono = "0.4"
clap = { version = "4", features = ["derive"] }
colored = "2"
dialoguer = "0.11"
prettytable-rs = "0.10"
semver = "1"
serde = { version = "1", features = ["derive"] }
serde_json = "1"
serde_yaml = "0.9"
sha2 = "0.10"
thiserror = "1"
ureq = { version = "2", features = ["json"] }
walkdir = "2"
zip = { version = "0.6", default-features = false, features = ["deflate"] }

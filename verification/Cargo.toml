[package]
name = "harbor-core"
version = "0.1.0"
edition = "2021"
publish = false

[dependencies]
sha2 = "0.10"
hex = "0.4"
semver = "1"
dirs = "5"
serde = { version = "1", features = ["derive"] }
serde_json = "1"
toml = "0.8"
ureq = { version = "2", features = ["json"] }
tiny_http = "0.12"
tar = "0.4"
flate2 = "1"
ignore = "0.4"
chrono = "0.4"
thiserror = "1"
anyhow = "1"
clap = { version = "4", features = ["derive"] }
rpassword = "7"

[dev-dependencies]
tempfile = "3"

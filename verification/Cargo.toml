[package]
name = "jester"
version = "0.1.0"
edition = "2021"
publish = false

[dependencies]
adler = "1"
anyhow = "1"
chrono = "0.4"
clap = { version = "4", features = ["derive"] }
env_logger = "0.10"
glob = "0.3"
jwt = "0.16"
libloading = "0.8"
log = "0.4"
multipart = { version = "0.18", default-features = false, features = ["client"] }
new_mime_guess = "4"
serde = { version = "1", features = ["derive"] }
serde_yaml = "0.9"
sqlx = { version = "0.7", features = ["runtime-tokio", "sqlite"] }
thiserror = "1"
tokio = { version = "1", features = ["full"] }
ureq = "2"

[package]
name = "vorleser_server"
version = "0.1.0"
edition = "2021"
publish = false

[dependencies]
uuid = { version = "=1.29.0", features = ["v4"] }
mp3-metadata = "=0.3.4"
ring = "=0.17.14"
humanesort = "=0.1.0-alpha"
regex = "=1.13.1"
walkdir = "=2.5.0"
id3 = "=1.17.2"
toml = "=0.8.23"
serde = { version = "=1.0.229", features = ["derive"] }
serde_json = "=1.0.154"
clap = "=2.34.0"
log = "=0.4.35"
simplelog = "=0.12.2"
argon2rs = "=0.2.5"
rocket = { version = "0.5", default-features = false }

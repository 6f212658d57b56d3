[package]
name = "plex_api"
version = "0.1.0"
edition = "2021"
publish = false

[dependencies]
content_disposition = "*"
http = "*"
isahc = "*"
quick-xml = { version = "*", features = ["serialize"] }
secrecy = "*"
serde = { version = "*", features = ["derive"] }
serde_json = "*"
sysinfo = "*"
uuid = { version = "*", features = ["v4"] }

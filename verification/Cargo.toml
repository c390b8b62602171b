[package]
name = "icon_library"
version = "0.1.0"
edition = "2021"
publish = false

[dependencies]
serde_json = "1"
actix-web = "4"
awc = { version = "3", features = ["rustls"] }
dotenv = "0.15"
mime = "0.3"
reqwest = { version = "0.11", default-features = false }
rustls = "0.20"
webpki-roots = "0.22"

[package]
name = "oxide_auth_actix"
version = "0.1.0"
edition = "2021"
publish = false

[dependencies]
serde_urlencoded = "0.7"
url = "2"
oxide-auth = "0.5"
actix = "0.13"
actix-web = { version = "4", default-features = false }

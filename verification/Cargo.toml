[package]
name = "pkce_login"
version = "0.1.0"
edition = "2021"
publish = false

[dependencies]
oauth2 = { version = "=4.4.2", default-features = false }
sha2 = "0.10"

[package]
name = "loginmanager"
version = "0.1.0"
edition = "2021"
publish = false

[dependencies]
cookie = { version = "=0.18.2", default-features = false, features = ["private", "percent-encode", "key-expansion"] }
rust-crypto = "=0.2.36"
time = "=0.3.55"
actix-web = { version = "=4.15.0", default-features = false, features = ["cookies"] }
futures = "=0.3.34"
serde = { version = "=1.0.229", features = ["derive"] }
serde_json = "=1.0.151"

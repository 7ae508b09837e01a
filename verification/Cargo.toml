[package]
name = "foxbot"
version = "0.1.0"
edition = "2021"
publish = false

[dependencies]
serde_json = "*"
scraper = "*"
reqwest = { version = "*", default-features = false, features = ["blocking"] }

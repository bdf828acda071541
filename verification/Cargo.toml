[package]
name = "rustech"
version = "0.1.0"
edition = "2021"
publish = false

[dependencies]
scraper = "*"
serde_json = "*"
reqwest = { version = "*", default-features = false, features = ["blocking", "cookies", "gzip"] }

[package]
name = "url_scraper"
version = "0.1.0"
edition = "2021"
publish = false

[dependencies]
url = "*"
scraper = "*"
reqwest = { version = "*", default-features = false }

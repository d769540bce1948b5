[package]
name = "egyptian_scraper"
version = "0.1.0"
edition = "2021"
publish = false

[dependencies]
scraper = "*"
csv = "*"
serde = { version = "*", features = ["derive"] }
reqwest = { version = "*", default-features = false, features = ["blocking"] }

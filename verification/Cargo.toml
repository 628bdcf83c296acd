[package]
name = "fitmenu"
version = "0.1.0"
edition = "2021"
publish = false

[dependencies]
regex = "1"
scraper = "*"
reqwest = { version = "0.12", features = ["blocking"] }
dotenv = "0.15"

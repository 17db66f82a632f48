[package]
name = "tee_pee_scraper"
version = "0.1.0"
edition = "2021"
publish = false

[dependencies]
anyhow = "1"
indicatif = "0.17"
inquire = "0.7"
keyring = "3"
reqwest = { version = "0.12", default-features = false, features = ["blocking", "cookies"] }
scraper = "*"

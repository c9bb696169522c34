[package]
name = "libtranslate"
version = "0.1.0"
edition = "2021"
publish = false

[dependencies]
async-trait = "0.1"
rand = "0.8"
regex = "1"
reqwest = "0.11"
scraper = "*"
serde_json = "1"
thiserror = "1"

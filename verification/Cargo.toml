[package]
name = "vpn_sub_scraper"
version = "0.1.0"
edition = "2021"
publish = false

[dependencies]
serde_json = "1"
reqwest = { version = "0.12", default-features = false, features = ["cookies", "json"] }
tokio = { version = "1", features = ["rt-multi-thread", "macros", "net"] }
axum = "*"
dotenvy = "*"

[package]
name = "instagram_reels_scraper"
version = "0.1.0"
edition = "2021"
publish = false

[dependencies]
anyhow = "1"
chrono = "0.4"
csv = "1"
dotenvy = "0.15"
env_logger = "0.11"
envy = "0.4"
headless_chrome = "1"
indexmap = "2"
log = "0.4"
ordered-float = "4"
serde = { version = "1", features = ["derive"] }
serde_json = "1"
spreadsheet-ods = "*"
tempfile = "3"
ureq = { version = "3", features = ["json"] }
ureq_multipart = "*"

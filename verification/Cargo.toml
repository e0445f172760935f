[package]
name = "listing_export"
version = "0.1.0"
edition = "2021"
publish = false

[dependencies]
serde_json = "*"
quick-xml = { version = "*", features = ["serialize"] }
reqwest = { version = "*", default-features = false, features = ["blocking"] }
rust_xlsxwriter = "*"
chrono = "*"
dotenvy = "*"
anyhow = "*"

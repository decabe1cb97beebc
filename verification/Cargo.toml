[package]
name = "rss2email"
version = "0.1.0"
edition = "2021"
publish = false

[dependencies]
chrono = "0.4"
log = "0.4"
quick-xml = { version = "0.23", features = ["serialize"] }
serde = { version = "1", features = ["derive"] }
ureq = "2"

[package]
name = "iars"
version = "0.1.0"
edition = "2021"
publish = false

[dependencies]
ureq = { version = "2", features = ["json"] }
serde = { version = "1", features = ["derive"] }
serde_json = "1"
serde-xml-rs = "*"

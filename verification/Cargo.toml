[package]
name = "reformat"
version = "0.1.0"
edition = "2021"
publish = false

[dependencies]
serde = { version = "1", features = ["derive"] }
serde_json = { version = "1", features = ["preserve_order"] }
serde_yaml = "0.9"
toml = "0.8"
ron = "0.8"
serde-xml-rs = "0.6"
serde_urlencoded = "0.7"

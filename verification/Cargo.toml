[package]
name = "json_color"
version = "0.1.0"
edition = "2021"
publish = false

[dependencies]
colored = "*"
serde_json = { version = "1", features = ["preserve_order"] }

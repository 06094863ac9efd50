[package]
name = "farm_resolve"
version = "0.1.0"
edition = "2021"
publish = false

[dependencies]
relative-path = "1"
serde = { version = "1", features = ["derive"] }
serde_json = { version = "1", features = ["preserve_order"] }

[package]
name = "delineate"
version = "0.1.0"
edition = "2021"
publish = false

[dependencies]
indexmap = "2"
fuzzy-matcher = "0.3"
serde = { version = "1", features = ["derive"] }
serde_json = "1"
bincode = "1"

[dev-dependencies]
regex = "1"

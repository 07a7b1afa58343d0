[package]
name = "readtext"
version = "0.1.0"
edition = "2021"
publish = false

[dependencies]
urlencoding = "2"
regex = "1"
pulldown-cmark = { version = "*", default-features = false, features = ["html"] }
serde_yaml = "0.9"
rusqlite = { version = "*", features = ["bundled"] }
walkdir = "2"
notify = "*"
serde = { version = "1", features = ["derive"] }
serde_json = "1"
parking_lot = "*"
tokio = { version = "1", features = ["fs"] }

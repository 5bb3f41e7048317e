[package]
name = "webdir"
version = "0.1.0"
edition = "2021"
publish = false

[dependencies]
image = { version = "0.25", default-features = false, features = ["png", "jpeg", "gif", "webp"] }
jsonwebtoken = "9"
pulldown-cmark = "0.13"
rusqlite = { version = "*", features = ["bundled"] }
serde = { version = "1", features = ["derive"] }
serde_json = "1"
sha1 = "0.10"
syntect = "5"
tempfile = "3"
tungstenite = "*"
two-face = "0.4"

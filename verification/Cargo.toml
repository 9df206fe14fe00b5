[package]
name = "quick_notepad"
version = "0.1.0"
edition = "2021"
publish = false

[dependencies]
crossterm = "*"
reqwest = { version = "*", default-features = false, features = ["blocking", "json"] }
serde = { version = "*", features = ["derive"] }

[package]
name = "journal"
version = "0.1.0"
edition = "2021"
publish = false

[dependencies]
isocountry = "*"
clap = { version = "*", features = ["derive"] }
crossterm = "*"
curl = "*"
dirs = "*"
serde = { version = "*", features = ["derive"] }
serde_json = "*"
chrono = "*"

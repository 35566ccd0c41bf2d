[package]
name = "superego"
version = "0.1.0"
edition = "2021"
publish = false

[dependencies]
serde = { version = "*", features = ["derive"] }
serde_json = "*"
chrono = "*"
urlencoding = "*"
attohttpc = { version = "*", default-features = false, features = ["json"] }
clap = { version = "*", features = ["derive"] }

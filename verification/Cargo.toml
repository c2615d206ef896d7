[package]
name = "mail_server"
version = "0.1.0"
edition = "2021"
publish = false

[dependencies]
reqwest = { version = "=0.11.27", default-features = false }
rocket = { version = "=0.5.2", features = ["json", "secrets"] }
dust-mail = { version = "=0.4.3", default-features = false }

[package]
name = "boondle"
version = "0.1.0"
edition = "2021"
publish = false

[dependencies]
anyhow = "*"
clap = { version = "*", features = ["derive"] }
postcard = { version = "*", features = ["alloc"] }
serde = { version = "*", features = ["derive"] }
serde_json = "*"

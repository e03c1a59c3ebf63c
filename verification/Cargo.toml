[package]
name = "claudy"
version = "0.1.0"
edition = "2021"
publish = false

[dependencies]
serde = { version = "1", features = ["derive"] }
serde_json = "1"
rand = "0.8"
toml = "*"
clap = { version = "4", features = ["derive"] }
notify = "*"
directories = "*"
dirs = "*"

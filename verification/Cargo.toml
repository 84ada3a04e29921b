[package]
name = "skysphere"
version = "0.1.0"
edition = "2021"
publish = false

[dependencies]
astronav = "*"
chrono = "*"
clap = { version = "*", features = ["derive"] }
serde = { version = "*", features = ["derive"] }
toml = "*"

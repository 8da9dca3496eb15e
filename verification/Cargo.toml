[package]
name = "zuu"
version = "0.1.0"
edition = "2021"
publish = false

[dependencies]
clap = "*"
cli-table = "*"
crossterm = "*"
inquire = "*"
serde = { version = "*", features = ["derive"] }
toml = "*"

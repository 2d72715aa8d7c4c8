[package]
name = "rudit"
version = "0.1.0"
edition = "2021"
publish = false

[dependencies]
anyhow = "*"
clap = { version = "*", features = ["cargo"] }
comma = "*"
crossterm = "*"
home = "*"
serde = { version = "*", features = ["derive"] }
toml = "*"

[package]
name = "identity"
version = "0.1.0"
edition = "2021"
publish = false

[dependencies]
anyhow = "*"
clap = { version = "*", features = ["cargo"] }
home = "*"
inquire = "*"
serde = { version = "*", features = ["derive"] }
toml = "*"
url = "*"

[package]
name = "fuzix"
version = "0.2.0"
edition = "2021"
publish = false

[dependencies]
anyhow = "1"
clap = { version = "4", features = ["derive"] }
colored = "2"
crossterm = "0.27"
dirs = "5"
flate2 = "1"
indicatif = "0.17"
portable-pty = "0.8"
serde = { version = "1", features = ["derive"] }
tar = "0.4"
toml = "0.8"
ureq = "2"

[package]
name = "firesim"
version = "0.1.0"
edition = "2021"
publish = false

[dependencies]
anyhow = "1"
csv = "1"
num-format = "0.4"
serde = { version = "1", features = ["derive"] }
structopt = "0.3"
toml = "0.5"

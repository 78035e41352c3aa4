[package]
name = "tokencount"
version = "0.1.0"
edition = "2021"
publish = false

[dependencies]
anyhow = "*"
clap = { version = "*", features = ["derive"] }
colored = "*"
glob = "*"
prettytable-rs = "*"
rayon = "*"
tiktoken-rs = "*"

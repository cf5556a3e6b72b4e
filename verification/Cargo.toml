[package]
name = "nos_reader"
version = "0.1.0"
edition = "2021"
publish = false

[dependencies]
clap = { version = "4", features = ["derive"] }
rand = "0.9"
regex = "1"
reqwest = { version = "0.12", features = ["blocking"] }
scraper = "*"
termion = "4"
textwrap = "0.16"

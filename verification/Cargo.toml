[package]
name = "guessing_games"
version = "0.1.0"
edition = "2021"
publish = false

[dependencies]
clap = { version = "4", features = ["cargo"] }
colored = "2"
rand = "0.8"

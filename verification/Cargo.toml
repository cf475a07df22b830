[package]
name = "uno_engine"
version = "0.1.0"
edition = "2021"
publish = false

[dependencies]
rand = "0.8"
colored = "2"
clap = { version = "4", features = ["derive"] }

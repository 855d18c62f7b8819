[package]
name = "hq"
version = "0.1.0"
edition = "2021"
publish = false

[dependencies]
scraper = "=0.27.0"
html5ever = "=0.39.0"
markup5ever_rcdom = "=0.39.0"
clap = { version = "=4.6.7", features = ["derive"] }

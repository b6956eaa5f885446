[package]
name = "md2pdf"
version = "0.1.0"
edition = "2021"
publish = false

[dependencies]
urlencoding = "*"
pulldown-cmark = "*"
headless_chrome = "*"
clap = { version = "*", features = ["derive"] }
env_logger = "*"
log = "*"
walkdir = "*"

[package]
name = "head_rewrite"
version = "0.1.0"
edition = "2021"
publish = false

[dependencies]
anyhow = "=1.0.104"
clap = { version = "=4.6.7", features = ["derive"] }
fs_extra = "=1.3.0"
html_editor = "=0.5.2"
walkdir = "=2.5.0"

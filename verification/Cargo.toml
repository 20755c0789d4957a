[package]
name = "build_wrap"
version = "0.1.0"
edition = "2021"
publish = false

[dependencies]
anyhow = "1"
home = "0.5"
once_cell = "1"
regex = "1"
tempfile = "3"
toml = "*"
xdg = "*"

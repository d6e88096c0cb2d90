[package]
name = "feofetch"
version = "0.1.0"
edition = "2021"
publish = false

[dependencies]
anyhow = "*"
clap = { version = "*", features = ["derive"] }
etcetera = "*"
serde = { version = "*", features = ["derive"] }
sys-info = "*"
termcolor = "*"
toml = "*"
uptime_lib = "*"
which = "*"

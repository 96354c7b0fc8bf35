[package]
name = "rscoop_core"
version = "0.1.0"
edition = "2021"
publish = false

[dependencies]
chrono = "0.4"
dirs = "*"
serde_json = "1"
winreg = "*"

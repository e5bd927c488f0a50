[package]
name = "cxline"
version = "0.1.0"
edition = "2021"
publish = false

[dependencies]
shlex = "*"
dirs = "*"
ratatui = "*"
serde = { version = "*", features = ["derive"] }
toml = "*"
tracing = "*"

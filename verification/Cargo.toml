[package]
name = "hhe_core"
version = "0.1.0"
edition = "2021"
publish = false

[dependencies]
anyhow = "*"
chrono = "*"
clap = { version = "*", features = ["derive"] }
crossterm = "*"
rand = "*"
ratatui = "*"
rust_lisp = "*"
serde = { version = "*", features = ["derive"] }
toml = "*"

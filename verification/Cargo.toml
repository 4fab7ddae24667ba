[package]
name = "textmerge"
version = "0.1.0"
edition = "2021"
publish = false

[dependencies]
url = "*"
tiktoken-rs = "*"
reqwest = { version = "*", default-features = false, features = ["rustls-tls"] }
tokio = { version = "*", features = ["rt-multi-thread", "macros"] }
crossterm = "*"
ratatui = "*"
arboard = "*"
serde = { version = "*", features = ["derive"] }
serde_json = "*"
async-trait = "*"

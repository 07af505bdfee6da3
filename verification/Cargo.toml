[package]
name = "chat_input"
version = "0.1.0"
edition = "2021"
publish = false

[dependencies]
unicode-width = "=0.1.14"
crossterm = "=0.27.0"
ratatui = "=0.23.0"
tokio = { version = "=1.54.1", features = ["net", "io-util", "rt"] }
async-trait = "=0.1.92"

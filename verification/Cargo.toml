[package]
name = "ilyrics"
version = "0.1.0"
edition = "2021"
publish = false

[dependencies]
lrc = "=0.2.0"
html-escape = "=0.2.15"
reqwest = { version = "=0.13.5", default-features = false, features = ["blocking", "query"] }

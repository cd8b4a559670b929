[package]
name = "vimcord"
version = "0.1.0"
edition = "2021"
publish = false

[dependencies]
unicode-width = "*"
tokio = { version = "*", features = ["rt-multi-thread", "macros", "sync", "time"] }
reqwest = { version = "*", default-features = false, features = ["json"] }
serde = { version = "*", features = ["derive"] }
serde_json = "*"
crossterm = "*"
ratatui = "*"
chrono = "*"
confy = "*"
dirs = "*"
dotenvy = "*"

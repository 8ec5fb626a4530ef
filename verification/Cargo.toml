[package]
name = "anylist_cli"
version = "0.1.0"
edition = "2021"
publish = false

[dependencies]
anylist_rs = "*"
chrono = "0.4"
clap = "4"
crossterm = "*"
dirs = "*"
inquire = "*"
serde_json = "1"
tokio = { version = "1", features = ["macros", "rt-multi-thread", "signal", "time"] }

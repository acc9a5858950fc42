[package]
name = "git-flow-tui"
version = "0.1.0"
edition = "2021"
publish = false

[dependencies]
clap = { version = "4", features = ["derive"] }
clap_complete = "4"
color-eyre = "0.6"
ratatui = "*"

[package]
name = "termchat"
version = "0.1.0"
edition = "2021"
publish = false

[dependencies]
arboard = "*"
clap = { version = "4", features = ["derive"] }
crossterm = "0.25"
tui = "0.19"

[package]
name = "wordle"
version = "0.1.0"
edition = "2021"
publish = false

[dependencies]
rand = "0.8"
termion = "*"
catppuccin = "*"
textwrap = "*"
tokio = { version = "1", features = ["macros", "rt-multi-thread", "signal", "sync"] }

[package]
name = "moji"
version = "0.1.0"
edition = "2021"
publish = false

[dependencies]
sublime_fuzzy = "*"
clap = { version = "3", features = ["derive"] }
console = "*"
dialoguer = "*"

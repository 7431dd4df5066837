[package]
name = "jukebox_cli"
version = "0.1.0"
edition = "2021"
publish = false

[dependencies]
rand = "0.9"
ratatui = "0.29"
crossterm = "0.28"
clap = { version = "4", features = ["derive"] }
image = { version = "0.25", default-features = false, features = ["png"] }
rodio = "0.21"
symphonia = { version = "0.5", default-features = false, features = ["mp3"] }

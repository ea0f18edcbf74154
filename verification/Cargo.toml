[package]
name = "kakisute"
version = "0.1.0"
edition = "2021"
publish = false

[dependencies]
anyhow = "1"
chrono = "0.4"
clap = { version = "3", features = ["derive"] }
clap_complete = "3"
crossterm = "0.25"
directories = "4"
grep = "0.2"
scrawl = "1"
shellexpand = "2"
termcolor = "1"
tui = "0.19"
unicode-width = "0.1"
walkdir = "2"

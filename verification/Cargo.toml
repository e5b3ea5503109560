[package]
name = "himalaya-tui"
version = "0.1.0"
edition = "2021"
publish = false

[dependencies]
ratatui = "0.26"
crossterm = "0.27"
color-eyre = "0.6"
clap = "4"
email-lib = { version = "0.26", default-features = false }
pimalaya-tui = { version = "0.2", default-features = false }

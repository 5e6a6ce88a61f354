[package]
name = "pueue_tui"
version = "0.1.0"
edition = "2021"
publish = false

[dependencies]
ansi-to-tui = "*"
color-eyre = "*"
crossterm = "*"
fast-strip-ansi = "*"
ratatui = "*"

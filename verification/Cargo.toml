[package]
name = "smpd_tui"
version = "0.1.0"
edition = "2021"
publish = false

[dependencies]
mpd = "*"
ratatui = "*"
crossterm = "*"
rand = "*"

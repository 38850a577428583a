[package]
name = "dotfile_browser"
version = "0.1.0"
edition = "2021"

[dependencies]
crossterm = "0.27"
ratatui = "0.26"
walkdir = "2"

[package]
name = "lsd_colors"
version = "0.1.0"
edition = "2021"
publish = false

[dependencies]
ansi_term = "*"
terminal_size = "*"

[package]
name = "term_overlay"
version = "0.1.0"
edition = "2021"
publish = false

[dependencies]
vt100 = "*"
vte = "*"
crossterm = "*"

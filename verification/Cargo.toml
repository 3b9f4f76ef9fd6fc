[package]
name = "subspace_menu"
version = "0.1.0"
edition = "2021"
publish = false

[dependencies]
crossterm = "*"
owo-colors = "*"
tokio = { version = "*", features = ["rt-multi-thread", "macros"] }
color-eyre = "*"

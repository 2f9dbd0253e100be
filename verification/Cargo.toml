[package]
name = "mov2mp4"
version = "0.1.0"
edition = "2021"
publish = false

[dependencies]
colored = "*"
indicatif = "*"
thiserror = "*"
which = "*"

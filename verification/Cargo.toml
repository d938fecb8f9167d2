[package]
name = "echoback"
version = "0.1.0"
edition = "2021"
publish = false

[dependencies]
crossbeam-channel = "*"
alsa = "*"
anyhow = "*"
argh = "*"

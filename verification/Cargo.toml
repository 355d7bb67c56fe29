[package]
name = "rusty_rsx"
version = "0.1.0"
edition = "2021"
publish = false

[dependencies]
x11rb = { version = "=0.14.0", features = ["render"] }

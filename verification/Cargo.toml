[package]
name = "playground_frame"
version = "0.1.0"
edition = "2021"
publish = false

[dependencies]
yew = "*"
web-sys = "*"
gloo-console = "*"

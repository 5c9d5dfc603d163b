[package]
name = "tuix"
version = "0.1.0"
edition = "2021"
publish = false

[dependencies]
glutin = "0.26"
keyboard-types = "0.5"

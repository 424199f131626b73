[package]
name = "modifiernode"
version = "0.1.0"
edition = "2021"
publish = false

[dependencies]
gtk4 = "0.3"
once_cell = "1"

[package]
name = "comfy_table"
version = "0.1.0"
edition = "2021"
publish = false

[dependencies]
strum = "*"
strum_macros = "*"

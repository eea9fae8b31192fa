[package]
name = "holderplace"
version = "0.1.0"
edition = "2021"
publish = false

[dependencies]
image = "*"
webp = "*"
imageproc = "*"
ab_glyph = "*"
clap = { version = "*", features = ["derive"] }

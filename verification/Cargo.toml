[package]
name = "agon_periph"
version = "0.1.0"
edition = "2021"
publish = false

[dependencies]
ez80 = "*"

[package]
name = "i2c_dma"
version = "0.1.0"
edition = "2021"
publish = false

[dependencies]
nb = "*"

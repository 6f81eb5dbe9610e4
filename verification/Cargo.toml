[package]
name = "otdr_core"
version = "0.1.0"
edition = "2021"
publish = false

[dependencies]
otdrs = "*"
rayon = "*"

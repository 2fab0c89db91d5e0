[package]
name = "fidget_spinner"
version = "0.1.0"
edition = "2021"
publish = false

[dependencies]
png = "=0.18.1"
gl = "=0.14.0"
glutin = "0.19"

[package]
name = "glerminal"
version = "0.1.0"
edition = "2021"
publish = false

[dependencies]
png = "*"
sfl_parser = "*"
gl = "*"
glutin = "0.29"

[package]
name = "harbomux"
version = "0.1.0"
edition = "2021"
publish = false

[dependencies]
ctor = "*"
home = "*"
once_cell = "*"

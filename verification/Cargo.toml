[package]
name = "xege"
version = "0.1.0"
edition = "2021"
publish = false

[dependencies]
xege-ffi = "*"
palette = "*"
mats = "*"
thiserror = "*"

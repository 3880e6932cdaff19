[package]
name = "p9n_interface_2024"
version = "0.1.0"
edition = "2021"
publish = false

[dependencies]
async-std = "*"

[package]
name = "const_generic_wrap"
version = "0.1.0"
edition = "2021"
publish = false

[dependencies]
typenum = "=1.13.0"

[package]
name = "saori_interface_rs"
version = "0.1.0"
edition = "2021"
publish = false

[dependencies]
encoding = "0.2"
encoding_rs = "0.8"

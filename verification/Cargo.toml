[package]
name = "netbricks"
version = "0.1.0"
edition = "2021"
publish = false

[dependencies]
fxhash = "0.2.1"
time = "0.1"

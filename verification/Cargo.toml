[package]
name = "script_host"
version = "0.1.0"
edition = "2021"
publish = false

[dependencies]
json = "=0.12.4"
either = "=1.19.0"
mozjs = "*"

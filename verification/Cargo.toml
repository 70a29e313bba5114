[package]
name = "object"
version = "0.1.0"
edition = "2021"
publish = false

[dependencies]
goblin = "=0.10.7"
miniz_oxide = "*"
uuid = "=1.27.0"

[package]
name = "camino_tempfile"
version = "0.1.0"
edition = "2021"
publish = false

[dependencies]
camino = "1"
fastrand = "2"

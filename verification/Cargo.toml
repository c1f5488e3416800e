[package]
name = "goldenfile"
version = "0.1.0"
edition = "2021"
publish = false

[dependencies]
difference = "2.0"
tempfile = "3"
yansi = "1.0"

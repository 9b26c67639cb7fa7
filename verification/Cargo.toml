[package]
name = "dip"
version = "0.1.0"
edition = "2021"
publish = false

[dependencies]
pathdiff = "*"
dirs = "*"
walkdir = "*"
flate2 = "*"
tar = "*"
reqwest = { version = "*", default-features = false, features = ["blocking"] }

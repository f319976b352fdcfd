[package]
name = "arenta"
version = "1.0.0"
edition = "2021"
publish = false

[dependencies]
chrono = "0.4"
colored = "2"
csv = "1"
dirs = "*"
inquire = { version = "*", features = ["date"] }

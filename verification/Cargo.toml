[package]
name = "stratos_ci"
version = "0.1.0"
edition = "2021"
publish = false

[dependencies]
clap = "*"
colored = "*"
reqwest = { version = "*", default-features = false, features = ["blocking"] }

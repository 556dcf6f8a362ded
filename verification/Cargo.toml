[package]
name = "alert"
version = "0.1.0"
edition = "2021"
publish = false

[dependencies]
clap = "2"
colored = "2"
notify-rust = "4"
regex = "1"
reqwest = { version = "0.11", default-features = false, features = ["blocking"] }
shell-escape = "0.1"

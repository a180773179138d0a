[package]
name = "batch_rename"
version = "0.1.0"
edition = "2021"
publish = false

[dependencies]
regex = "1"
glob = "0.3"
clap = { version = "4", features = ["derive"] }
dialoguer = "0.11"
prettytable-rs = "0.10"

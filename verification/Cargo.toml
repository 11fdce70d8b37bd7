[package]
name = "pthesis"
version = "0.1.0"
edition = "2021"
publish = false

[dependencies]
clap = "*"
prettytable-rs = "*"

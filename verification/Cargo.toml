[package]
name = "nrs"
version = "0.1.0"
edition = "2021"
publish = false

[dependencies]
clap = "*"
netstat2 = "*"
prettytable-rs = "*"

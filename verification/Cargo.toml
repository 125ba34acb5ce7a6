[package]
name = "netbeat"
version = "0.1.0"
edition = "2021"
publish = false

[dependencies]
anstyle = "1"
byte-unit = "5"
clap = { version = "4", features = ["derive"] }
json = "0.12"
rand = "0.9"
spinners = "4"
tabled = "*"
thiserror = "*"

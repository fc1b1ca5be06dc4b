[package]
name = "kapow"
version = "0.1.0"
edition = "2021"
publish = false

[dependencies]
clap = { version = "4", features = ["derive"] }
clap-cargo = "*"
dtg-lib = "*"
lazy_static = "1"
pager = "*"
path-slash = "*"
regex = "1"
termwrap = "*"
which = "*"

[package]
name = "prqlc"
version = "0.1.0"
edition = "2021"
publish = false

[dependencies]
anyhow = "1"
chumsky = "0.9"
itertools = "0.12"
log = "0.4"
once_cell = "1"
regex = "1"

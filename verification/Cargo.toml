[package]
name = "ecobridge"
version = "0.9.1"
edition = "2021"
publish = false

[dependencies]
libc = "*"
lazy_static = "*"
crossbeam-channel = "*"
rayon = "*"
chrono = "*"
duckdb = "*"

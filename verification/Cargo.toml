[package]
name = "ex_mgrs"
version = "0.1.0"
edition = "2021"
publish = false

[dependencies]
geoconvert = "=1.0.2"
rustler = "=0.34.0"

[package]
name = "matching_pennies"
version = "0.1.0"
edition = "2021"
publish = false

[dependencies]
zmq = "*"
rmp-serialize = "*"
rustc-serialize = "*"

[package]
name = "echo_add_server"
version = "0.1.0"
edition = "2021"
publish = false

[dependencies]
log = "*"
parking_lot = "*"
prost = "*"

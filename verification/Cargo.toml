[package]
name = "cyclonedds_sys"
version = "0.2.1"
edition = "2021"
publish = false

[dependencies]
bitmask = "*"

[package]
name = "leveldb"
version = "0.1.0"
edition = "2021"
publish = false

[dependencies]
leveldb-sys = "2.0"
libc = "0.2"

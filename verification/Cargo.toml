[package]
name = "thanatos_logic"
version = "0.1.0"
edition = "2021"
publish = false

[dependencies]
cxx = "*"
dashmap = "*"
libc = "*"
log = "*"
rusqlite = "*"

[package]
name = "waxe"
version = "0.1.0"
edition = "2021"
publish = false

[dependencies]
libc = "0.2"
rustyline = "9.1.2"

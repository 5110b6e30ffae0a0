[package]
name = "simplevm"
version = "0.1.0"
edition = "2021"
publish = false

[dependencies]
libc = "*"
structopt = "*"
objc = "*"
block = "*"
virtualization-rs = "*"

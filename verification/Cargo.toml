[package]
name = "c_hjkl"
version = "0.1.0"
edition = "2021"
publish = false

[dependencies]
libc = "=0.2.191"
uinput = { version = "=0.1.3", default-features = false }

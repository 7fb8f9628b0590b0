[package]
name = "brd"
version = "0.1.0"
edition = "2021"
publish = false

[dependencies]
colored = "=3.1.1"
console = "=0.16.6"
dialoguer = "0.5"
git2 = { version = "=0.21.0", default-features = false }

[dev-dependencies]
tempfile = "3"

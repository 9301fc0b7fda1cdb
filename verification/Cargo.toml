[package]
name = "brshtop"
version = "0.1.0"
edition = "2021"
publish = false

[dependencies]
regex = "1"
lenient_bool = "*"
log = "0.4"
libc = "0.2"
nix = { version = "*", features = ["fs", "term"] }
uname = "*"

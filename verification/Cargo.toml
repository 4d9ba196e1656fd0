[package]
name = "se_rs_ial"
version = "0.1.0"
edition = "2021"

[dependencies]
serial = "=0.4.0"
serial-win = "*"
libc = "=0.2.191"
winapi = "=0.2.8"

[dev-dependencies]
nix = { version = "=0.31.3", features = ["term", "fs"] }

[package]
name = "keystroke"
version = "0.1.0"
edition = "2021"
publish = false

[dependencies]
evdev = "*"
nix = { version = "*", features = ["poll", "fs"] }
async-channel = "*"
xkbcommon = "*"

[package]
name = "cliphold"
version = "0.1.0"
edition = "2021"
publish = false

[dependencies]
nix = { version = "*", features = ["fs"] }
wayland-client = "*"
wayland-protocols-wlr = { version = "*", features = ["client"] }

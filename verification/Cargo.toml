[package]
name = "something_lock"
version = "0.1.0"
edition = "2021"
publish = false

[dependencies]
rust-ini = "=0.21.3"
image = { version = "=0.25.10", default-features = false, features = ["png", "jpeg", "gif", "bmp", "webp", "tiff"] }
whoami = "=1.6.1"
wayland-client = "=0.31.15"
wayland-protocols = { version = "=0.32.13", features = ["client", "staging"] }
xdg = "=3.0.0"
tracing = "=0.1.44"
tracing-subscriber = "=0.3.23"

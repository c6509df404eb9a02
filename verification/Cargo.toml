[package]
name = "serialport"
version = "0.1.0"
edition = "2021"
publish = false

[dependencies]
libc = "=0.2.191"
termios = "=0.2.2"
ioctl-rs = "=0.1.6"
libudev = "=0.2.0"

[dev-dependencies]
nix = { version = "0.26", default-features = false, features = ["term"] }

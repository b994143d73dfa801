[package]
name = "rasp_probe"
version = "0.1.0"
edition = "2021"
publish = false

[dependencies]
nix = { version = "*", features = ["ptrace", "feature"] }
plt-rs = "*"
libc = "*"
jni = "*"

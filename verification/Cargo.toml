[package]
name = "s3k_fs"
version = "0.1.0"
edition = "2021"
publish = false

[dependencies]
aes = "0.8"
xts-mode = "0.5"
bitvec-rs = "*"
bitflags = "2"
log = "0.4"
spin = "0.9"
virtio-drivers = "*"

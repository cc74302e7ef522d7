[package]
name = "ipkvm"
version = "0.1.0"
edition = "2021"
publish = false

[dependencies]
arboard = { version = "=3.7.0", default-features = false, features = ["image-data"] }
sys-locale = "=0.3.2"
rust-i18n = "=3.1.5"
jpeg-encoder = "=0.6.1"
serialport = { version = "=4.10.1", default-features = false }
libc = "=0.2.191"
thiserror = "=2.0.21"

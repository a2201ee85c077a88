[package]
name = "netcore"
version = "0.1.0"
edition = "2021"
publish = false

[dependencies]
smoltcp = "=0.14.0"
spin = { version = "=0.12.3", features = ["ticket_mutex"] }
virtio-drivers = "=0.13.0"

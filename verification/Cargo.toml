[package]
name = "aberred"
version = "0.1.0"
edition = "2021"
publish = false

[dependencies]
configparser = "3"
bevy_ecs = "0.18"
raylib = "5.5.1"
log = "0.4"
crossbeam-channel = "0.5"
rustc-hash = "2"

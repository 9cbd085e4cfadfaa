[package]
name = "portaudio"
version = "0.7.0"
edition = "2021"
publish = false

[dependencies]
libc = "0.2"
num = "0.4"

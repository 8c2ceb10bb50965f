[package]
name = "kleinos"
version = "0.1.0"
edition = "2021"
publish = false

[dependencies]
bootloader = "0.9"
lazy_static = "1"
pic8259 = "0.11"
spin = "0.9"
x86_64 = "=0.15.4"

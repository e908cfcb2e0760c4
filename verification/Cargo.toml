[package]
name = "hardware_buffer"
version = "0.1.0"
edition = "2021"
publish = false

[dependencies]
bytemuck = "1"
cstr = "0.2"
lazy_static = "1"
libc = "0.2"

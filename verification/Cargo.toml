[package]
name = "daedalus"
version = "0.1.0"
edition = "2021"
publish = false

[dependencies]
spin = "0.9"
lazy_static = "1"
volatile = "0.2"
fdt-rs = { version = "0.4", default-features = false }

[package]
name = "multihart"
version = "0.1.0"
edition = "2021"
publish = false

[dependencies]
fdt-rs = "=0.4.5"
log = "=0.4.34"
owo-colors = "=4.4.0"
talc = { version = "=4.4.3", default-features = false }

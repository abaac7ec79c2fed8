[package]
name = "r_display"
version = "0.1.0"
edition = "2021"
publish = false

[dependencies]
c_vec = "=2.0.0"
cgmath = "=0.18.0"
exr = "0.9"
ndspy-sys = "0.1"
oidn = "=1.4.3"
rayon = "=1.12.0"

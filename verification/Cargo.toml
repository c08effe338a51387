[package]
name = "rproc"
version = "0.1.0"
edition = "2021"
publish = false

[dependencies]
egui = "*"
libc = "0.2"
nvml-wrapper = "*"

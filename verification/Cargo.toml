[package]
name = "build_bpf"
version = "0.1.0"
edition = "2021"
publish = false

[dependencies]
libbpf-cargo = "*"

[package]
name = "aya_log_ebpf"
version = "0.1.0"
edition = "2021"
publish = false

[dependencies]
aya-ebpf = "*"
aya-log-common = "*"
ufmt = "*"

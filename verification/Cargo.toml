[package]
name = "cpu_cycles_reader"
version = "0.1.0"
edition = "2021"
publish = false

[dependencies]
libc = "*"
num_cpus = "*"
thiserror = "*"

[package]
name = "cpu_instructions_reader"
version = "0.1.0"
edition = "2021"
publish = false

[dependencies]
num_cpus = "*"
libc = "*"
thiserror = "*"

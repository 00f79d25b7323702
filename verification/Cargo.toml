[package]
name = "pressure"
version = "0.1.0"
edition = "2021"
publish = false

[dependencies]
core_affinity = "*"
raw-cpuid = "*"
sysinfo = "*"

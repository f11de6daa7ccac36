[package]
name = "r4boot"
version = "0.1.0"
edition = "2021"
publish = false

[dependencies]
multiboot = "*"
raw-cpuid = "*"
x86 = "*"

[package]
name = "xp_layer"
version = "0.1.0"
edition = "2021"
publish = false

[dependencies]
raw-cpuid = "11"
sysinfo = { version = "0.32", default-features = false, features = ["system"] }

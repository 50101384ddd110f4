[package]
name = "arm9_rt"
version = "0.1.0"
edition = "2021"
publish = false

[dependencies]
critical-section = { version = "1", features = ["std"] }
proc-macro2 = "1"
quote = "1"
syn = { version = "2", features = ["full"] }

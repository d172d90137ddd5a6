[package]
name = "inference_harness"
version = "0.1.0"
edition = "2021"
publish = false

[dependencies]
tfmicro = "*"
aligned = "*"

[package]
name = "step_planning"
version = "0.1.0"
edition = "2021"
publish = false

[dependencies]
argmin = "*"
argmin-math = "*"

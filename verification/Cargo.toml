[package]
name = "plasma"
version = "0.1.0"
edition = "2021"
publish = false

[dependencies]
micromath = "2"
rand = "0.7"
scoped_threadpool = "0.1"

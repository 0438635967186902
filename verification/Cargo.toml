[package]
name = "x-log"
version = "0.7.2"
edition = "2021"
publish = false

[dependencies]
time = { version = "0.3", features = ["formatting"] }

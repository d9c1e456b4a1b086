[package]
name = "dynamic_reload"
version = "0.1.0"
edition = "2021"
publish = false

[dependencies]
libloading = "0.7"
notify = "4"
tempdir = "0.3"

[package]
name = "proactor"
version = "0.1.0"
edition = "2021"
publish = false

[dependencies]
futures = "0.3"
once_cell = "1"
rustix-uring = "*"
waker-fn = "1"

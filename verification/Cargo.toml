[package]
name = "log_watcher"
version = "0.1.0"
edition = "2021"
publish = false

[dependencies]
chrono = "*"
colored = "*"
fern = "*"
kqueue2 = "*"
log = "*"
mimalloc = "*"
nanoserde = "*"
walkdir = "*"

[package]
name = "cargo_watch_plus"
version = "0.1.0"
edition = "2021"
publish = false

[dependencies]
home = "0.5"
which = "4"
fs_extra = "1"

[dev-dependencies]
tempfile = "3"

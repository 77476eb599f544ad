[package]
name = "pcre2"
version = "0.1.0"
edition = "2021"
publish = false

[dependencies]
pcre2-sys = "*"
thread_local = "*"
log = "*"

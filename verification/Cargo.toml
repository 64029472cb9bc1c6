[package]
name = "log_filter"
version = "0.1.0"
edition = "2021"
publish = false

[dependencies]
regex = "1"
clap = "2"
futures = "0.1"

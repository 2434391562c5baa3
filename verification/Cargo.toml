[package]
name = "rust_for_it"
version = "2.0.0"
edition = "2021"
publish = false

[dependencies]
subprocess = "=0.2.15"
clap = "=4.6.7"

[package]
name = "swoon"
version = "0.1.0"
edition = "2021"
publish = false

[dependencies]
liquid = "=0.26.11"
kstring = "=2.0.0"
clap = "=3.2.25"
console = "=0.16.6"
dialoguer = "=0.12.0"
futures = "=0.3.34"
which = "=8.0.6"
yaml-rust = "=0.4.5"

[package]
name = "virtual_visca"
version = "0.1.0"
edition = "2021"
publish = false

[dependencies]
grafton-visca = "=0.13.0"
itertools = "=0.15.0"
thiserror = "=2.0.21"
clap = { version = "=4.6.7", features = ["derive"] }

[package]
name = "yokoiboy"
version = "0.1.0"
edition = "2021"
publish = false

[dependencies]
circular-queue = "0.2"
clap = { version = "4", features = ["derive"] }

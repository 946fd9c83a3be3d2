[package]
name = "stdvis"
version = "0.1.0"
edition = "2021"
publish = false

[dependencies]
anyhow = "1"
clap = { version = "=3.2.25", features = ["derive"] }
ndarray = "=0.15.6"
png = "=0.17.16"
serde = { version = "1", features = ["derive"] }
serde_json = "1"
v4l = "=0.14.0"

[package]
name = "nitro_helper"
version = "0.1.0"
edition = "2021"
publish = false

[dependencies]
vsock = "=0.5.4"
ctrlc = "=3.5.2"
sysinfo = "=0.39.6"
serde = { version = "*", features = ["derive"] }
serde_json = "*"

[package]
name = "dofus_vision"
version = "0.1.0"
edition = "2021"
publish = false

[dependencies]
chrono = "=0.4.45"
image = { version = "=0.25.10", default-features = false }
rdev = "=0.5.3"
screencapturekit = "=11.0.0"

[package]
name = "my_detection"
version = "0.1.0"
edition = "2021"
publish = false

[dependencies]
burn = { version = "=0.16.1", default-features = false, features = ["std", "ndarray", "autodiff", "dataset"] }
image = { version = "=0.25.10", default-features = false, features = ["png", "jpeg"] }
serde = { version = "=1.0.229", features = ["derive"] }
serde_json = "=1.0.154"
tempfile = "=3.27.0"

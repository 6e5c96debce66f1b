[package]
name = "denoise_stream"
version = "0.1.0"
edition = "2021"
publish = false

[dependencies]
ringbuf = "0.4"
godot = "*"
deep_filter = "*"
ndarray = "0.15"
nnnoiseless = { version = "*", default-features = false }
opus = "*"

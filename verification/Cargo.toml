[package]
name = "rhino2d"
version = "0.1.0"
edition = "2021"
publish = false

[dependencies]
byteorder = "1"
image = { version = "0.24", default-features = false, features = ["png", "tga"] }
log = "0.4"
nalgebra = "0.32"
serde = { version = "1", features = ["derive"] }
serde_ignored = "0.1"
serde_json = "1"
serde_repr = "0.1"
wgpu = "0.14"

[package]
name = "heat_city"
version = "0.1.0"
edition = "2021"
publish = false

[dependencies]
glam = "=0.29.3"
hecs = "=0.10.5"
serde = { version = "=1.0.229", features = ["derive"] }
bincode = "=1.3.3"
ron = "=0.8.1"
thiserror = "=1.0.69"
tracing = "=0.1.44"
tracing-subscriber = { version = "=0.3.23", features = ["env-filter"] }
image = { version = "=0.25.10", default-features = false, features = ["png"] }
wgpu = "24"
winit = "0.30"
pollster = "0.4"
bytemuck = { version = "1", features = ["derive"] }

[package]
name = "butter_engine"
version = "0.1.0"
edition = "2021"
publish = false

[dependencies]
gl = "=0.14.0"
glam = "=0.24.2"
libm = "=0.2.16"
raw-gl-context = "=0.1.2"
serde = { version = "=1.0.229", features = ["derive"] }
simple-error = "=0.3.3"
stb_image_rust = "=2.27.2"
toml = "=0.8.23"
winit = { version = "=0.29.15", features = ["rwh_04"] }

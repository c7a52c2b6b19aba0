[package]
name = "cobia"
version = "0.1.0"
edition = "2021"
publish = false

[dependencies]
num = "0.4"
png = "0.17"
jpeg-decoder = { version = "0.3", default-features = false }
colored = "2"
error-stack = "0.4"
thiserror = "1"
bytemuck = { version = "1", features = ["derive"] }
nalgebra-glm = "0.18"
gl = "0.14"
vulkano = "0.32"
vulkano-win = "0.32"
winit = "0.27"

[package]
name = "game_gl"
version = "0.1.0"
edition = "2021"
publish = false

[dependencies]
image = { version = "=0.25.10", default-features = false, features = ["png"] }
shrev = "=1.1.3"
specs = "0.20"
log = "=0.4.34"
env_logger = "=0.11.11"
winit = "=0.30.13"
glutin = "=0.32.3"
glutin-winit = "=0.5.0"
raw-window-handle = "=0.6.2"
rusttype = "=0.9.3"
nalgebra-glm = "=0.21.0"

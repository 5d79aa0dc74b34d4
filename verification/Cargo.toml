[package]
name = "chip8_engine"
version = "0.1.0"
edition = "2021"
publish = false

[dependencies]
fastrand = "=1.9.0"
clap = { version = "=3.2.25", features = ["derive"] }
env_logger = "=0.9.3"
log = "=0.4.34"
game-loop = { version = "=0.10.2", features = ["winit"] }
pixels = "=0.12.1"
winit = "=0.28.7"
winit_input_helper = "=0.14.1"

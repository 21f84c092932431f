[package]
name = "stateloop"
version = "0.1.0"
edition = "2021"
publish = false

[dependencies]
winit = "=0.26.1"
vulkano = "=0.29.0"
vulkano-win = "=0.29.0"

[package]
name = "mtk"
version = "0.1.0"
edition = "2021"
publish = false

[dependencies]
accesskit = "*"
bytemuck = "=1.25.2"
smol_str = "0.2"
winit = "0.30"

[package]
name = "kanvas"
version = "0.1.0"
edition = "2021"
publish = false

[dependencies]
anyhow = "=1.0.104"
bytemuck = "=1.25.2"
cgmath = "=0.17.0"
futures = "=0.3.34"
image = "=0.23.14"
imgui = "=0.5.0"
imgui-wgpu = "=0.10.0"
imgui-winit-support = "=0.5.0"
shaderc = "=0.6.3"
tobj = "=1.0.0"
wgpu = "=0.6.2"
winit = "=0.22.2"

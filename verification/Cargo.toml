[package]
name = "life_compute"
version = "0.1.0"
edition = "2021"
publish = false

[dependencies]
bytemuck = "1"
instant = "0.1"
log = "0.4"
rand = "0.8"
rand_chacha = "0.3"
wasm-bindgen = "0.2"
wgpu = { version = "0.20", default-features = false, features = ["wgsl"] }
winit = { version = "0.30", default-features = false, features = ["rwh_06", "x11"] }

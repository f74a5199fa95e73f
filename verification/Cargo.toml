[package]
name = "hebi"
version = "0.1.0"
edition = "2021"
publish = false

[dependencies]
rand = "=0.8.8"
rand_pcg = "=0.3.1"
serde = { version = "=1.0.229", features = ["derive"] }
bevy = { version = "=0.5.0", default-features = false, features = ["render", "bevy_wgpu", "bevy_winit", "x11"] }
darling = "=0.10.2"

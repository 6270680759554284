[package]
name = "bevissimo"
version = "0.1.0"
edition = "2021"
publish = false

[dependencies]
rand = "=0.8.8"
clap = { version = "=3.2.25", features = ["derive"] }
serde = { version = "=1.0.229", features = ["derive"] }
serde_qs = "=0.10.1"
uuid = "=1.29.0"
ggrs = "=0.9.3"
getset = "=0.1.7"
benimator = "=4.1.3"
bevy = { version = "=0.8.1", default-features = false, features = ["animation", "bevy_asset", "bevy_winit", "render", "png", "x11"] }
bevy_rapier2d = "=0.16.2"
bevy_ggrs = "=0.10.0"
web-sys = "=0.3.72"

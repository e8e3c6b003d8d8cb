[package]
name = "wolf-dual-screen"
version = "0.1.0"
edition = "2021"
publish = false

[dependencies]
anyhow = "=1.0.104"
clap = { version = "=4.6.7", features = ["derive"] }
drm-fourcc = "=2.2.0"
env_logger = "=0.11.11"
glow = "=0.17.0"
librashader = { version = "=0.12.1", default-features = false, features = ["runtime-gl", "presets"] }
log = "=0.4.34"
once_cell = "=1.21.4"
signal-hook = "=0.3.18"
smithay = { version = "=0.7.0", default-features = false, features = ["desktop", "wayland_frontend", "xwayland"] }
tracing = "=0.1.44"
tracing-subscriber = "=0.3.23"
x11 = { version = "=2.21.0", features = ["xlib", "glx"] }

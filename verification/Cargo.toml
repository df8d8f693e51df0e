[package]
name = "ember"
version = "0.1.0"
edition = "2021"
publish = false

[dependencies]
ansi_term = "0.12"
ash = { version = "0.38", features = ["linked"] }
colored = "3"
drm-fourcc = "2"
errno = "0.3"
glm = "0.2"
libc = "0.2"
libloading = "0.8"
log = { version = "0.4", features = ["kv"] }
pipewire = "*"
portal-screencast-waycap = "*"
shaderc = "*"
winit = "0.30"

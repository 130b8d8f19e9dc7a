[package]
name = "wgpu_external_memory"
version = "0.1.0"
edition = "2021"
publish = false

[dependencies]
nix = { version = "0.24", features = ["fs"] }
drm-fourcc = "2.2"
ash = "0.37"
glow = "0.11"
log = "0.4"
env_logger = "0.9"
bitflags = "1.3"
wgpu = "0.13"
wgpu-core = "0.13"
wgpu-hal = "0.13"

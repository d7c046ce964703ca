[package]
name = "gpu_handoff"
version = "0.1.0"
edition = "2021"
publish = false

[dependencies]
bevy = { version = "=0.17.3", default-features = false, features = ["bevy_render", "bevy_log"] }
wgpu = { version = "=26.0.1", default-features = false }
cubecl-wgpu = "=0.8.1"

[dev-dependencies]
wgpu = { version = "=26.0.1", default-features = false, features = ["noop"] }

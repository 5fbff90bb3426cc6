[package]
name = "pbr_lights"
version = "0.1.0"
edition = "2021"
publish = false

[dependencies]
bevy_core = "=0.5.0"
bevy_ecs = "=0.5.0"
bevy_math = "=0.5.0"
bevy_reflect = "=0.5.0"
bevy_render = "=0.5.0"
bevy_transform = "=0.5.0"
tracing-attributes = "=0.1.23"

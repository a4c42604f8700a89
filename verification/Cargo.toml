[package]
name = "bevy_ui_preferences"
version = "0.1.0"
edition = "2021"
publish = false

[dependencies]
bevy_app = "=0.20.0"
bevy_color = { version = "=0.20.0", features = ["serialize"] }
bevy_ecs = "=0.20.0"
bevy_math = "=0.20.0"
bevy_platform = "=0.20.0"
bevy_reflect = "=0.20.0"
bevy_tasks = "=0.20.0"
crossbeam-channel = "=0.5.17"
mundy = "=0.2.3"
serde = { version = "=1.0.229", features = ["derive"] }

[package]
name = "botracers"
version = "0.1.0"
edition = "2021"
publish = false

[dependencies]
avian2d = { version = "0.4", default-features = false, features = ["2d", "f32", "parry-f32"] }
base64 = "=0.22.1"
bevy = { version = "0.17", default-features = false, features = ["bevy_gizmos", "bevy_state", "bevy_window"] }
color-eyre = "=0.6.5"
ehttp = { version = "=0.5.0", features = ["json"] }
serde = { version = "=1.0.229", features = ["derive"] }
serde_json = "=1.0.154"

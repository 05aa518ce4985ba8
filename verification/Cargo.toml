[package]
name = "encounter"
version = "0.1.0"
edition = "2021"
publish = false

[dependencies]
bevy = { version = "0.16", default-features = false, features = ["std", "async_executor", "bevy_asset", "bevy_color", "bevy_core_pipeline", "bevy_render", "bevy_sprite", "bevy_state", "bevy_text", "bevy_window"] }
log = "0.4"
rand = "0.8"
serde = { version = "1", features = ["derive"] }
toml = "0.8"

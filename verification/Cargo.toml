[package]
name = "comfort_rpg"
version = "0.1.0"
edition = "2021"
publish = false

[dependencies]
bracket-noise = "=0.8.7"
rand = "=0.8.8"
serde = { version = "=1.0.229", features = ["derive"] }
serde_json = "=1.0.154"
toml = "=0.5.11"
bevy = { version = "=0.9.1", default-features = false, features = ["bevy_asset", "bevy_winit", "bevy_render", "bevy_core_pipeline", "bevy_sprite", "bevy_text", "bevy_ui", "png", "x11"] }
bevy_ecs_tilemap = "=0.9.0"
bevy_asset_loader = { version = "=0.14.1", features = ["stageless", "2d", "standard_dynamic_assets"] }
iyes_loopless = "=0.9.1"

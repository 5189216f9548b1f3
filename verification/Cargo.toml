[package]
name = "coin_in_the_sky"
version = "0.1.0"
edition = "2021"
publish = false

[dependencies]
rand = "0.8"
bevy = { version = "0.12", default-features = false, features = ["bevy_asset"] }
bevy_asset_loader = { version = "0.18", features = ["progress_tracking"] }
iyes_progress = "0.10"

[package]
name = "rgb_puzzle"
version = "0.1.0"
edition = "2021"
publish = false

[dependencies]
bevy = { version = "0.11.3", default-features = false, features = ["bevy_asset"] }
bevy_common_assets = { version = "0.7.0", features = ["json"] }
ctrl_macros = "0.1.0"
serde = { version = "1", features = ["derive"] }

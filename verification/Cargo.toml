[package]
name = "platformer"
version = "0.1.0"
edition = "2021"
publish = false

[dependencies]
bevy = { version = "=0.6.1", default-features = false, features = ["render", "bevy_winit", "x11"] }
bevy_asset_ron = "=0.3.1"
emergent = "=1.9.0"
serde = { version = "=1.0.229", features = ["derive"] }
# bevy 0.6's derive crates use items of syn 1 that only its `full` feature
# holds, and do not ask for that feature themselves. tracing-attributes is in
# bevy's tree, and this release of it is the last that asks for it.
tracing-attributes = "=0.1.23"

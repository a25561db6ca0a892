[package]
name = "shellbar"
version = "0.1.0"
edition = "2021"
publish = false

[dependencies]
tokio = { version = "1", features = ["rt", "rt-multi-thread", "sync", "macros", "time", "fs", "io-util"] }
tokio-stream = "0.1"
serde = { version = "1", features = ["derive"] }
serde_json = "1"
strum_macros = "0.27"
zbus = { version = "5", default-features = false, features = ["tokio"] }
hyprland = "0.4.0-beta.2"
tauri = { version = "2", default-features = false }
gtk = "0.18"
gtk-layer-shell = "0.8"

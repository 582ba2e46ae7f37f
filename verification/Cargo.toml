[package]
name = "omarchy-theme"
version = "0.1.0"
edition = "2021"
publish = false

[dependencies]
clap = { version = "4", features = ["derive"] }
notify = "6"
inotify = "0.11"
futures = "0.3"
serde = { version = "1", features = ["derive"] }
serde_json = "1"
iced = { version = "0.13", default-features = false, features = ["tiny-skia"] }
imgui = "0.12"

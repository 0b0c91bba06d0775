[package]
name = "gartray"
version = "0.1.0"
edition = "2021"
publish = false

[dependencies]
anyhow = "1"
clap = { version = "4", features = ["derive"] }
dirs = "5"
serde = { version = "1", features = ["derive"] }
serde_json = "1"
toml = "0.8"
tokio = { version = "1", features = ["full"] }
tracing = "0.1"
tracing-subscriber = { version = "0.3", features = ["env-filter"] }
zbus = { version = "4", default-features = false, features = ["tokio"] }
x11rb = { version = "0.13", features = ["randr"] }
cairo-rs = "0.20"
image = { version = "0.25", default-features = false, features = ["png", "jpeg"] }
resvg = { version = "0.45", default-features = false }
tiny-skia = "0.11"
libpulse-binding = "2"

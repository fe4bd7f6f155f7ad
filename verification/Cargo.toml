[package]
name = "instantwm_rs"
version = "0.1.0"
edition = "2021"
publish = false

[dependencies]
clap = { version = "4", features = ["derive"] }
dirs = "*"
serde = { version = "1", features = ["derive"] }
serde_json = "1"
smithay = { version = "0.7", default-features = false, features = ["wayland_frontend", "desktop"] }
thiserror = "*"
toml = "*"
tracing = "0.1"
tracing-subscriber = { version = "0.3", features = ["env-filter"] }
xkbcommon = "*"

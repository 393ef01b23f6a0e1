[package]
name = "driftwm"
version = "0.1.0"
edition = "2021"
publish = false

[dependencies]
toml = "*"
serde = { version = "1", features = ["derive"] }
xcursor = "*"
image = { version = "*", default-features = false, features = ["png", "jpeg"] }
tracing = "0.1"
tracing-subscriber = { version = "0.3", features = ["env-filter"] }
libc = "0.2"
smithay = { version = "*", default-features = false, features = ["wayland_frontend", "desktop", "renderer_gl", "backend_winit", "xwayland"] }

[package]
name = "lumagen"
version = "0.1.0"
edition = "2021"
publish = false

[dependencies]
bytemuck = { version = "=1.25.2", features = ["derive"] }
directories = "=6.0.0"
eframe = { version = "=0.34.3", default-features = false, features = ["wgpu_no_default_features", "default_fonts", "persistence", "x11"] }
egui_extras = { version = "=0.34.3", default-features = false, features = ["image"] }
egui-phosphor = { version = "=0.12.0", features = ["bold", "fill"] }
image = { version = "=0.25.10", default-features = false, features = ["png", "jpeg"] }
keyring-core = "=1.0.1"
rfd = { version = "=0.16.1", default-features = false, features = ["xdg-portal", "tokio"] }
serde = { version = "=1.0.229", features = ["derive"] }
serde_json = "=1.0.154"
tokio = { version = "=1.54.1", features = ["rt-multi-thread", "macros", "sync", "time"] }
tokio-util = "=0.7.20"
tracing = "=0.1.44"
tracing-appender = "=0.2.5"
tracing-log = "=0.2.0"
tracing-subscriber = { version = "=0.3.23", default-features = false, features = ["env-filter", "fmt", "std"] }

[package]
name = "glowberry-lib"
version = "0.1.0"
edition = "2021"
publish = false

[dependencies]
bytemuck = "=1.25.2"
clap = { version = "=4.6.7", features = ["derive"] }
color-eyre = "=0.6.5"
eyre = "=0.6.14"
futures = "=0.3.34"
image = { version = "=0.25.10", default-features = false, features = ["png", "jpeg", "webp", "gif", "bmp"] }
notify = "=8.2.1"
serde = { version = "=1.0.229", features = ["derive"] }
smithay-client-toolkit = { version = "=0.19.2", default-features = false, features = ["calloop"] }
thiserror = "=1.0.69"
tokio = { version = "=1.54.1", features = ["rt", "sync", "macros"] }
tracing = "=0.1.44"
tracing-subscriber = "=0.3.23"
wayland-backend = { version = "=0.3.17", features = ["client_system", "dlopen"] }
wgpu = "=27.0.1"
zbus = { version = "=5.19.0", default-features = false, features = ["tokio"] }

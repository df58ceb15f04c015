[package]
name = "hr_view"
version = "0.1.0"
edition = "2021"
publish = false

[dependencies]
btleplug = "=0.13.5"
dbus = { version = "=0.9.12", features = ["vendored"] }
env_logger = "=0.11.11"
iced = { version = "=0.14.0", default-features = false, features = ["tiny-skia", "tokio", "x11"] }
iced_aw = { version = "=0.14.1", default-features = false, features = ["labeled_frame", "selection_list"] }
log = "=0.4.34"
serde = { version = "=1.0.229", features = ["derive"] }
serde_json = "=1.0.154"
sys-locale = "=0.3.2"
uuid = "=1.29.0"

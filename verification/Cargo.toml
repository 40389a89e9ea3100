[package]
name = "panther"
version = "0.1.0"
edition = "2021"
publish = false

[dependencies]
ab_glyph = "0.2"
android_logger = "*"
glutin = "0.32"
glutin-winit = "0.5"
image = { version = "0.25", default-features = false, features = ["png", "gif"] }
jni = "0.21"
lazy_static = "1"
log = "0.4"
parking_lot = "0.12"
serde = { version = "1", features = ["derive"] }
serde_json = "1"
winit = { version = "0.30", features = ["android-native-activity"] }

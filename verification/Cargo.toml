[package]
name = "rust_native"
version = "0.1.0"
edition = "2021"
publish = false

[dependencies]
ahash = { version = "=0.8.12", default-features = false, features = ["std", "no-rng"] }
android-activity = { version = "=0.6.1", features = ["native-activity"] }
android_logger = "=0.15.1"
jni = "=0.21.1"
log = "=0.4.34"

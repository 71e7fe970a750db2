[package]
name = "camera_bridge"
version = "0.1.0"
edition = "2021"
publish = false

[dependencies]
clap = { version = "=4.6.7", features = ["derive"] }
color-eyre = "=0.6.5"
gilrs = "=0.11.2"
grafton-visca = "=0.3.0"
watch = "=0.2.3"

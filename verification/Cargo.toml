[package]
name = "gpui_mobile"
version = "0.1.0"
edition = "2021"
publish = false

[dependencies]
etagere = "0.2"
uuid = { version = "1", features = ["v5"] }
jni = "*"
log = "0.4"
parking_lot = "0.12"
wgpu = "*"

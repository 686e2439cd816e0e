[package]
name = "avl_render"
version = "0.1.0"
edition = "2021"
publish = false

[dependencies]
base64 = "=0.22.1"
tauri = { version = "2", default-features = false }

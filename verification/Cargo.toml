[package]
name = "topbar"
version = "0.1.0"
edition = "2021"
publish = false

[dependencies]
pyo3 = "*"
tauri = { version = "2", default-features = false }

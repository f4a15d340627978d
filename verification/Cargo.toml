[package]
name = "mvp_game"
version = "0.1.0"
edition = "2021"
publish = false

[dependencies]
anyhow = "1"
bevy = { version = "0.12", default-features = false }
wasmtime = "15"
wasmtime-wasi = "15"

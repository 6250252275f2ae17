[package]
name = "translation_store"
version = "0.1.0"
edition = "2021"
publish = false

[dependencies]
bevy = { version = "0.13", default-features = false }
rusqlite = { version = "0.31", features = ["bundled"] }

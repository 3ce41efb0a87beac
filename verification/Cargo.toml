[package]
name = "floem_ui_kit"
version = "0.1.0"
edition = "2021"
publish = false

[dependencies]
floem = "0.1"
im = "15"
num = "0.4"
strum = { version = "0.26", features = ["derive"] }

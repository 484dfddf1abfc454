[package]
name = "hala_subpasses"
version = "0.1.0"
edition = "2021"
publish = false

[dependencies]
anyhow = "1"
clap = "4"
log = "0.4"
winit = "0.29"
imgui = "0.12"
serde = { version = "1", features = ["derive"] }
serde_yaml = "0.9"

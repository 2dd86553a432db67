[package]
name = "hyprsome"
version = "0.1.0"
edition = "2021"
publish = false

[dependencies]
anyhow = "1"
clap = { version = "4", features = ["derive"] }
hyprland = "0.3"
once_cell = "1"
toml = "0.8"
xdg = "2"

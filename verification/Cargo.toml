[package]
name = "hyde_ipc"
version = "0.1.0"
edition = "2021"
publish = false

[dependencies]
clap = { version = "*", features = ["derive"] }
dirs = "*"
hyprland = "*"
serde = { version = "*", features = ["derive"] }
service-manager = "*"
tokio = { version = "*", features = ["rt"] }
toml = "*"

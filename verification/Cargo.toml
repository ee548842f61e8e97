[package]
name = "desktoprecorder"
version = "0.1.0"
edition = "2021"
publish = false

[dependencies]
anyhow = "=1.0.104"
clap = { version = "=4.6.7", features = ["derive"] }
ctrlc = { version = "=3.5.2", features = ["termination"] }
humantime = "=2.4.0"
serde = { version = "=1.0.229", features = ["derive"] }
toml = "0.9"
x11rb = { version = "0.13", features = ["randr"] }
zbus = "=5.19.0"

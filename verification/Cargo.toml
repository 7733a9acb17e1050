[package]
name = "plotview"
version = "0.1.0"
edition = "2021"
publish = false

[dependencies]
anyhow = "=1.0.104"
camino = "=1.2.6"
clap = { version = "=4.6.7", features = ["derive"] }
notify = "=8.2.0"
pixels = "=0.17.2"
resvg = "=0.48.1"
tiny-skia = "=0.12.0"
usvg = "=0.48.1"
winit = "=0.30.13"

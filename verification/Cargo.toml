[package]
name = "gba_image_data"
version = "0.1.0"
edition = "2021"
publish = false

[dependencies]
imagine = "=0.4.0"
clap = { version = "=4.6.7", features = ["derive"] }

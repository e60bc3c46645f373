[package]
name = "mypomodoro"
version = "0.1.0"
edition = "2021"
publish = false

[dependencies]
chrono = { version = "=0.4.45", default-features = false, features = ["now"] }
eframe = { version = "0.31", default-features = false, features = ["glow", "default_fonts", "x11"] }
env_logger = { version = "0.11", default-features = false }

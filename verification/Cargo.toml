[package]
name = "joystick"
version = "0.1.0"
edition = "2021"

[dependencies]
critical-section = { version = "1", features = ["std"] }
embedded-hal = { version = "0.2", features = ["unproven"] }
nb = "1"

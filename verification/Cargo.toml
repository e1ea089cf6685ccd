[package]
name = "pushrod"
version = "0.1.0"
edition = "2021"
publish = false

[dependencies]
sdl2 = { version = "0.32", features = ["ttf", "image"] }

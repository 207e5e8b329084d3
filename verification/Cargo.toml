[package]
name = "flipclock"
version = "0.1.0"
edition = "2021"
publish = false

[dependencies]
chrono = "0.4"
dirs = "5"
sdl2 = { version = "0.37", features = ["ttf"] }
serde = { version = "1", features = ["derive"] }
thiserror = "1"
toml = "0.8"

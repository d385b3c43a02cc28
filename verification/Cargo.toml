[package]
name = "arena_sim"
version = "0.1.0"
edition = "2021"
publish = false

[dependencies]
image = { version = "*", default-features = false, features = ["png"] }
sdl3 = "*"
serde = { version = "*", features = ["derive"] }
toml = "*"

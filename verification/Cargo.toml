[package]
name = "chitchat"
version = "0.1.0"
edition = "2021"
publish = false

[dependencies]
reqwest = { version = "*", default-features = false, features = ["blocking", "json"] }
sdl2 = { version = "*", features = ["ttf"] }
serde = { version = "*", features = ["derive"] }

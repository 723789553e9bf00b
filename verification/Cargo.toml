[package]
name = "rm8"
version = "0.1.0"
edition = "2021"
publish = false

[dependencies]
ctrlc = "3"
sdl2 = "0.35"
serde = { version = "1", features = ["derive"] }
serde_derive = "1"
serde_json = "1"
serialport = { version = "4", default-features = false }

[package]
name = "ruffle4consoles"
version = "0.1.0"
edition = "2021"
publish = false

[dependencies]
glow = "0.16"
ron = "0.8"
serde = { version = "1", features = ["derive"] }
sdl2 = "0.37"
tracing = "0.1"
tracing-subscriber = { version = "0.3", features = ["env-filter", "fmt"] }

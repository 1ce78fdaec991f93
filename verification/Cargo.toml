[package]
name = "pb_covers"
version = "0.1.0"
edition = "2021"
publish = false

[dependencies]
anyhow = "=1.0.104"
embedded-graphics = "=0.8.2"
embedded-graphics-core = "=0.4.1"
embedded-graphics-simulator = "=0.8.0"
guillotine = { version = "=0.4.0", features = ["flexbox"] }
hayro = "=0.9.0"
image = "=0.25.10"
inkview = "=0.3.0"
inkview-eg = "=0.3.0"
roxmltree = "=0.21.2"
sdl2 = "=0.38.0"
zip = "=9.2.2"

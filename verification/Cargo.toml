[package]
name = "flight_the_power"
version = "0.1.0"
edition = "2021"
publish = false

[dependencies]
hashbrown = "=0.14.5"
image = { version = "0.25", default-features = false, features = ["png"] }
rand = "=0.8.8"
ron = "=0.8.1"
serde = { version = "=1.0.229", features = ["derive"] }
winit = { version = "0.30", default-features = false, features = ["x11"] }

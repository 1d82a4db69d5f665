[package]
name = "firered"
version = "0.1.0"
edition = "2021"
publish = false

[dependencies]
ahash = "0.8"
rand = { version = "0.8", features = ["small_rng"] }
serde = { version = "1", features = ["derive"] }
ron = "0.8"
bincode = "1"
pico-args = "0.5"
log = "0.4"
lewton = "0.10"

[package]
name = "esp_i2c"
version = "0.1.0"
edition = "2021"
publish = false

[dependencies]
fugit = "0.3"
embedded-hal = "1.0"
embedded-hal-async = "1.0"
embassy-embedded-hal = "0.3"
embassy-futures = "0.1"
enumset = "1.1"
strum = { version = "0.26", features = ["derive"] }

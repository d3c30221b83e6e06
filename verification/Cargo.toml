[package]
name = "epd_waveshare"
version = "0.1.0"
edition = "2021"
publish = false

[dependencies]
bit_field = "=0.10.3"
embedded-hal = { version = "=0.2.7", features = ["unproven"] }

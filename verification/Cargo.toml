[package]
name = "pixel_display"
version = "0.1.0"
edition = "2021"
publish = false

[dependencies]
chrono = "=0.4.45"
embedded-graphics = "=0.8.2"
embedded-graphics-simulator = { version = "=0.8.0", default-features = false }
image = "=0.25.10"
rand = "=0.10.3"
rpi-led-panel = "=0.9.1"
rppal = "=0.22.1"
rspotify = { version = "=0.16.1", default-features = false, features = ["cli", "client-ureq", "ureq-rustls-tls"] }
tinybmp = "=0.7.0"
ureq = "=3.4.2"

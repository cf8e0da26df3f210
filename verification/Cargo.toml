[package]
name = "oled_now_playing"
version = "0.1.0"
edition = "2021"
publish = false

[dependencies]
magick_rust = "*"
mpris = "*"
qmk-oled-api = "=0.1.0-alpha.2"
reqwest = { version = "*", default-features = false, features = ["blocking"] }
tempfile = "*"

[package]
name = "ohmcalc"
version = "0.1.0"
edition = "2021"
publish = false

[dependencies]
nom = "7"
iced = { version = "0.13", default-features = false, features = ["tiny-skia", "markdown"] }

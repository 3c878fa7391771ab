[package]
name = "audio"
version = "0.1.0"
edition = "2021"
publish = false

[dependencies]
symphonia = { version = "0.5", features = ["mp3"] }
plotters = "0.3"

[package]
name = "radio_player"
version = "0.1.0"
edition = "2021"
publish = false

[dependencies]
minimp3 = "0.5"
rodio = { version = "0.17", default-features = false }
reqwest = { version = "*", default-features = false, features = ["blocking"] }

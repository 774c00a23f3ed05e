[package]
name = "recurring_timer"
version = "0.1.0"
edition = "2021"
publish = false

[dependencies]
iced = { version = "*", default-features = false, features = ["tiny-skia", "tokio"] }
rodio = "*"

[package]
name = "sketch_tools"
version = "0.1.0"
edition = "2021"
publish = false

[dependencies]
anyhow = "1"
femtovg = "0.20"
relm4 = { version = "0.10", features = ["libadwaita"] }

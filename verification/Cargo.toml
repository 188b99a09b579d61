[package]
name = "fretboard_layout"
version = "0.1.0"
edition = "2021"
publish = false

[dependencies]
svg = "*"
clap = { version = "*", features = ["derive"] }
serde = { version = "*", features = ["derive"] }
toml = "*"
rayon = "*"

[package]
name = "muth"
version = "0.1.0"
edition = "2021"
publish = false

[dependencies]
fuzzy-matcher = "0.3"
rand = { version = "0.8", features = ["small_rng"] }
cpal = "0.13"
crossterm = "0.25"
tui = { version = "0.19", default-features = false, features = ["crossterm"] }

[package]
name = "cnn"
version = "0.1.0"
edition = "2021"
publish = false

[dependencies]
indicatif = "*"
plotters = "*"
serde = { version = "*", features = ["derive"] }
tch = "*"
toml = "*"

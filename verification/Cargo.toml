[package]
name = "double_pendulum"
version = "0.1.0"
edition = "2021"
publish = false

[dependencies]
ctrlc = "*"
image = "*"
imageproc = "*"
itertools = "*"
rand = "*"
rayon = "*"
serde = { version = "*", features = ["derive"] }
serde_json = "*"

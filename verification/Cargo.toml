[package]
name = "supertris"
version = "0.1.0"
edition = "2021"
publish = false

[dependencies]
rayon = "*"
rand = "*"
bincode = { version = "*", features = ["derive"] }

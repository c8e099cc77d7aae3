[package]
name = "plinks"
version = "0.1.0"
edition = "2021"
publish = false

[dependencies]
ini-roundtrip = "*"
serde = { version = "*", features = ["derive"] }
clap = { version = "*", features = ["derive"] }
confy = "*"
directories = "*"
inquire = "*"
log = "*"

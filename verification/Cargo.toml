[package]
name = "rustcycles"
version = "0.1.0"
edition = "2021"
publish = false

[dependencies]
bincode = "=1.3.3"
serde = { version = "=1.0.229", features = ["derive"] }
cvars = "=0.4.2"
fxhash = "0.2"
fyrox = { version = "0.34", default-features = false }

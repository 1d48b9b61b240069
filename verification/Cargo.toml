[package]
name = "rhinopuffin"
version = "0.1.0"
edition = "2021"
publish = false

[dependencies]
aes-gcm = "0.10"
sha2 = "0.10"
rand = "0.8"
anyhow = "1"
clap = { version = "4", features = ["derive"] }
console = "0.15"

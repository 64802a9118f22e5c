[package]
name = "dgruft"
version = "0.1.0"
edition = "2021"
publish = false

[dependencies]
aes-gcm = "0.10"
camino = "1"
color-eyre = "0.6"
pbkdf2 = "0.12"
rpassword = "7"
rusqlite = "0.32"
sha2 = "0.10"

[package]
name = "passrs"
version = "0.1.0"
edition = "2021"
publish = false

[dependencies]
anyhow = "1"
clap = { version = "4", features = ["derive"] }
dirs = "5"
gpgme = "0.11"
rpassword = "7"
thiserror = "1"
zeroize = "1"

[package]
name = "tiktok"
version = "1.0.0"
edition = "2021"
publish = false

[dependencies]
clap = { version = "4", features = ["derive"] }
rpassword = "7"
serde_json = "1"
ureq = "3"

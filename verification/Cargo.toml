[package]
name = "startup_disk"
version = "0.1.0"
edition = "2021"
publish = false

[dependencies]
asahi-bless = "*"
rand = "*"
uuid = { version = "*", features = ["v4"] }
sudo = "*"

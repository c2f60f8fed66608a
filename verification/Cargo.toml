[package]
name = "snapclip"
version = "0.1.0"
edition = "2021"
publish = false

[dependencies]
arboard = { version = "=3.6.1", default-features = false, features = ["image-data"] }
screenshots = "=0.7.3"
image = { version = "=0.25.10", default-features = false, features = ["png"] }

[package]
name = "exif_gps"
version = "0.1.0"
edition = "2021"
publish = false

[dependencies]
kamadak-exif = "*"

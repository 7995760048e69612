[package]
name = "zoomlens"
version = "0.1.0"
edition = "2021"
publish = false

[dependencies]
libwayshot = "0.3.0"
raylib = "5.5.1"

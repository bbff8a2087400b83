[package]
name = "usbd-gscan"
version = "0.1.0"
edition = "2021"
publish = false

[dependencies]
embedded-can = "0.4"
heapless = "0.8"
usb-device = "0.3"

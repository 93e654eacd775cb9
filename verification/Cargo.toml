[package]
name = "keycoury"
version = "0.1.0"
edition = "2021"
publish = false

[dependencies]
usb-device = "*"
usbd-hid = "*"

[package]
name = "usbd_hid_core"
version = "0.1.0"
edition = "2021"
publish = false

[dependencies]
usb-device = "*"

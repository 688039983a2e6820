[package]
name = "usbd_boot_keyboard"
version = "0.1.0"
edition = "2021"
publish = false

[dependencies]
usb-device = "*"
usbd-hid = "*"

[package]
name = "keyboard_firmware"
version = "0.1.0"
edition = "2021"
publish = false

[dependencies]
cortex-m = "0.7"
cortex-m-rt = "0.7"
panic-halt = "0.2"
stm32f4xx-hal = { version = "0.14", features = ["stm32f407", "usb_fs"] }
usb-device = "0.2"
usbd-human-interface-device = "0.3"

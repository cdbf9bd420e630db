[package]
name = "analog_noise_test1"
version = "0.1.0"
edition = "2021"
publish = false

[dependencies]
cortex-m = "0.7"
cortex-m-semihosting = "0.5"
embedded-hal = "1"
embedded-hal-bus = "0.2"
embedded-graphics = "0.8"
ssd1680 = "*"
usb-device = "0.2"
usbd-serial = "0.1"
rtt-target = "*"

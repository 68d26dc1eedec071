[package]
name = "rc_usb_controller"
version = "0.1.0"
edition = "2021"
publish = false

[dependencies]
num = { version = "0.4", default-features = false }
usb-device = "0.2"
cortex-m = "0.7"
cortex-m-rtic = "1"
dwt-systick-monotonic = "1"
stm32f4xx-hal = { version = "0.11", features = ["stm32f411", "usb_fs", "rt"] }
panic-halt = "0.2"
rtt-target = { version = "0.3", features = ["cortex-m"] }

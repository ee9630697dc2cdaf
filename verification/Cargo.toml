[package]
name = "usbip_macos"
version = "0.1.0"
edition = "2021"
publish = false

[dependencies]
anyhow = "1"
bytes = "1"
log = "0.4"
tokio = { version = "1", features = ["full"] }
clap = "4"
clap-num = "1"
simple_logger = "*"
objc2 = "*"
objc2-foundation = "*"
objc2-io-usb-host = "*"
block2 = "*"
dispatch2 = "*"

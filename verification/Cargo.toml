[package]
name = "hello_aarch64_wifi_adb"
version = "0.1.0"
edition = "2021"
publish = false

[dependencies]
openssl = "*"

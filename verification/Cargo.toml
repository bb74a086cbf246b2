[package]
name = "sgp30_bringup"
version = "0.1.0"
edition = "2021"
publish = false

[dependencies]
cortex-m = "*"
cortex-m-rt = { version = "*", features = ["device"] }
cortex-m-semihosting = "*"
sgp30 = "*"
stm32f1xx-hal = { version = "*", default-features = false, features = ["stm32f103"] }

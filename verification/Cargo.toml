[package]
name = "m401_bsp"
version = "0.1.0"
edition = "2021"
publish = false

[dependencies]
stm32wlxx-hal = { version = "*", features = ["stm32wle5"] }

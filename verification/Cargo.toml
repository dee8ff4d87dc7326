[package]
name = "i2c_linux"
version = "0.1.0"
edition = "2021"
publish = false

[dependencies]
i2c-linux-sys = "*"
i2c = "*"
udev = "*"

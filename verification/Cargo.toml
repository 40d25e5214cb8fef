[package]
name = "rfm22_fan"
version = "0.1.0"
edition = "2021"
publish = false

[dependencies]
clap = "*"
env_logger = "*"
log = "*"
spidev = "*"
sysfs_gpio = "*"

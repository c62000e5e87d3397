[package]
name = "tray-icon"
version = "0.1.0"
edition = "2021"
publish = false

[dependencies]
png = "*"
crossbeam-channel = "*"
dirs = "*"
once_cell = "*"

[package]
name = "roulette_plot"
version = "0.1.0"
edition = "2021"
publish = false

[dependencies]
serialport = { version = "3.3.0", default-features = false }
turtle = "1.0.0-rc.3"

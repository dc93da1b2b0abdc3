[package]
name = "gameclockbone"
version = "0.1.0"
edition = "2021"
publish = false

[dependencies]
anyhow = "1"
futures-timer = "3"
iced = "0.1"
iced_futures = "0.1"
log = "0.4"
log4rs = "1"

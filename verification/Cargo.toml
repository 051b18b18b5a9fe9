[package]
name = "time_types"
version = "0.1.0"
edition = "2021"
publish = false

[dependencies]
jiff = "=0.2.39"
web-time = "=1.1.0"
anyhow = "=1.0.104"
egui = { version = "=0.33.3", default-features = false }
log = "=0.4.35"

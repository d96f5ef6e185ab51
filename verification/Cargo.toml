[package]
name = "dial_controller"
version = "0.1.0"
edition = "2021"
publish = false

[dependencies]
anyhow = "1"
log = "0.4"
esp-idf-svc = "0.49"
esp32-nimble = "0.8"

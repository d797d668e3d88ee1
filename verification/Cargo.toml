[package]
name = "ble_mouse"
version = "0.1.0"
edition = "2021"
publish = false

[dependencies]
esp32-nimble = "*"
esp-idf-hal = "*"
esp-idf-svc = "*"
esp-idf-sys = "*"
log = "*"

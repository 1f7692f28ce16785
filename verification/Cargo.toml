[package]
name = "rotary_input"
version = "0.1.0"
edition = "2021"
publish = false

[dependencies]
anyhow = "*"
embedded-graphics = "*"
esp-idf-hal = "*"
esp-idf-svc = "*"
gc9a01-rs = "*"
log = "*"

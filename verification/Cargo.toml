[package]
name = "p4x_eye"
version = "0.1.0"
edition = "2021"
publish = false

[dependencies]
anyhow = "1"
log = "0.4"
embedded-graphics = "0.8"
mipidsi = "0.9"
esp-idf-hal = "*"
esp-idf-svc = "*"

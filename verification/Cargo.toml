[package]
name = "epd_panel"
version = "0.1.0"
edition = "2021"
publish = false

[dependencies]
anyhow = "*"
embedded-svc = "*"
esp-idf-svc = "*"
log = "*"

[package]
name = "spot"
version = "0.1.0"
edition = "2021"
publish = false

[dependencies]
futures = "0.3"
gettext-rs = { version = "0.7", features = ["gettext-system"] }
gio = "*"
gtk4 = "*"

[package]
name = "display_switch"
version = "0.1.0"
edition = "2021"
publish = false

[dependencies]
ddc-hi = { version = "=0.4.1", default-features = false }
shell-words = "=1.1.1"

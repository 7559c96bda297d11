[package]
name = "ripen"
version = "0.1.0"
edition = "2021"
publish = false

[dependencies]
crossterm = "0.27"
directories = "5"
mlua = { version = "0.9", features = ["lua54", "vendored"] }
ratatui = "0.23"
uiua = { version = "0.10", default-features = false }

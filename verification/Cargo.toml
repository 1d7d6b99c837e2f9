[package]
name = "counter_app"
version = "0.1.0"
edition = "2021"
publish = false

[dependencies]
color-eyre = "0.6"
ratatui = "0.27"

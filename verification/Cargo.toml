[package]
name = "overlay_menu"
version = "0.1.0"
edition = "2021"
publish = false

[dependencies]
iced_core = "=0.12.3"
iced_style = "=0.12.1"

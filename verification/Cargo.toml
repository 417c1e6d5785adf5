[package]
name = "widget_overlay"
version = "0.1.0"
edition = "2021"
publish = false

[dependencies]
http = "*"
mime_guess = "*"
serde_json = "*"
tiny_http = "*"
portpicker = "*"
sysinfo = "*"

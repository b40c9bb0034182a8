[package]
name = "excel_analyzer"
version = "0.1.0"
edition = "2021"
publish = false

[dependencies]
calamine = "0.27"
eframe = { version = "=0.29.1", default-features = false, features = ["default_fonts", "glow", "x11"] }
rfd = { version = "=0.15.4", default-features = false, features = ["xdg-portal", "tokio"] }
strum = "=0.26.3"
strum_macros = "=0.26.4"

[package]
name = "md_view"
version = "0.1.0"
edition = "2021"
publish = false

[dependencies]
eframe = { version = "=0.36.2", default-features = false, features = ["glow", "x11"] }
egui_commonmark = { version = "=0.25.0", default-features = false }
rfd = { version = "=0.15.4", default-features = false, features = ["xdg-portal", "tokio"] }

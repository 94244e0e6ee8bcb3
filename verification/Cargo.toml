[package]
name = "component_ui"
version = "0.1.0"
edition = "2021"
publish = false

[dependencies]
arrow = { version = "54", default-features = false }
egui = "0.31"
egui_plot = "0.32"

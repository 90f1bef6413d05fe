[package]
name = "marty"
version = "0.1.0"
edition = "2021"
publish = false

[dependencies]
egui = { version = "0.20", default-features = false }
log = "0.4"

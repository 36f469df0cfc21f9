[package]
name = "ramifi"
version = "0.1.0"
edition = "2021"
publish = false

[dependencies]
chrono = "=0.4.45"
local_issues_lib = "=0.23.0"
serde_json = "=1.0.154"
eframe = { version = "=0.31.1", default-features = false, features = ["default_fonts", "glow", "x11"] }

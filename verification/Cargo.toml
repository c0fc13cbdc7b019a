[package]
name = "vrc_keyboard"
version = "0.1.0"
edition = "2021"
publish = false

[dependencies]
anyhow = "=1.0.104"
clap = { version = "=4.6.7", features = ["derive"] }
eframe = { version = "=0.22.0", default-features = false, features = ["glow", "default_fonts"] }
egui_logger = "=0.3.1"
env_logger = "=0.10.2"
log = "=0.4.35"
once_cell = "=1.21.4"
rosc = "=0.10.1"
rust-i18n = "=2.3.1"
sys-locale = "=0.3.2"
tokio = { version = "=1.54.1", features = ["rt-multi-thread", "macros"] }

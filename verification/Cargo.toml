[package]
name = "fexc"
version = "0.1.0"
edition = "2021"
publish = false

[dependencies]
catppuccin-egui = { version = "=5.7.0", default-features = false, features = ["egui33"] }
dirs = "=7.0.0"
eframe = { version = "=0.33.3", default-features = false, features = ["glow", "x11"] }
egui = "=0.33.3"
egui_extras = { version = "=0.33.3", default-features = false, features = ["syntect"] }
egui-phosphor = { version = "=0.11.0", features = ["regular", "bold"] }
fs-err = "=3.3.2"
log = "=0.4.34"
pretty_env_logger = "=0.5.0"
serde = { version = "=1.0.229", features = ["derive"] }
thiserror = "=2.0.21"
toml = "=1.1.7"

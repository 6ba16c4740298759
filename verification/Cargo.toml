[package]
name = "k_launcher"
version = "0.1.0"
edition = "2021"
publish = false

[dependencies]
serde = { version = "1", features = ["derive"] }
serde_json = "1"
toml = "*"
dirs = "*"
tokio = { version = "1", features = ["rt-multi-thread", "process", "io-util", "sync", "time", "macros"] }
futures = "0.3"
async-trait = "0.1"
tracing = "0.1"
tracing-subscriber = { version = "0.3", features = ["env-filter"] }
tracing-appender = "0.2"
thiserror = "*"
libc = "0.2"
ctrlc = "*"
egui = "*"
eframe = { version = "*", default-features = false, features = ["default_fonts", "glow", "wayland", "x11"] }

[package]
name = "clipsync"
version = "0.1.0"
edition = "2021"
publish = false

[dependencies]
image = { version = "*", default-features = false, features = ["png", "gif", "webp", "jpeg"] }
arboard = "*"
clap = { version = "*", features = ["derive"] }
tokio = { version = "*", features = ["macros", "rt-multi-thread", "net", "time", "io-util"] }
wl-clipboard-rs = "*"
log = "*"
pretty_env_logger = "*"
anyhow = "*"
